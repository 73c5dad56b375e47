//! Key-management value types: algorithm tags and composite key identifiers.
//!
//! A composite key identifier pairs a key algorithm with a device id and has
//! the canonical string form `"<algorithm>:<device id>"`. Decoding validates
//! that exactly one `:` separator is present and that the left segment is a
//! recognized algorithm token.

use crate::result_view;
use crate::str_eq;
use vstd::prelude::*;
use vstd::string::StrSliceExecFns;
use vstd::string::StringExecFns;

verus! {

/// The basic key algorithms in the specification.
#[derive(Debug, Clone, Copy, PartialEq, Eq, Hash, Structural)]
pub enum KeyAlgorithm {
    /// The Ed25519 signature algorithm.
    Ed25519,
    /// The Curve25519 ECDH algorithm.
    Curve25519,
    /// The Curve25519 ECDH algorithm, but the key also contains signatures.
    SignedCurve25519,
}

impl View for KeyAlgorithm {
    type V = KeyAlgorithm;

    open spec fn view(&self) -> KeyAlgorithm {
        *self
    }
}

/// The canonical wire token of a key algorithm.
pub open spec fn spec_algorithm_token(a: KeyAlgorithm) -> Seq<char> {
    match a {
        KeyAlgorithm::Ed25519 => "ed25519"@,
        KeyAlgorithm::Curve25519 => "curve25519"@,
        KeyAlgorithm::SignedCurve25519 => "signed_curve25519"@,
    }
}

/// The algorithm whose canonical token is `s`, if any. Case-sensitive exact
/// match; no trimming or case folding.
pub open spec fn spec_token_algorithm(s: Seq<char>) -> Option<KeyAlgorithm> {
    if s == "ed25519"@ {
        Some(KeyAlgorithm::Ed25519)
    } else if s == "curve25519"@ {
        Some(KeyAlgorithm::Curve25519)
    } else if s == "signed_curve25519"@ {
        Some(KeyAlgorithm::SignedCurve25519)
    } else {
        None
    }
}

/// The ways decoding an algorithm token or a composite key identifier fails.
#[derive(Debug, Clone, PartialEq, Eq)]
pub enum KeyIdError {
    /// The input contains no `:` separator.
    MissingSeparator,
    /// The input contains more than one `:` separator.
    TooManySeparators,
    /// The algorithm segment is not a recognized token; carries the segment
    /// verbatim.
    UnknownAlgorithm(String),
}

/// Specification-level form of [`KeyIdError`].
pub enum SpecKeyIdError {
    MissingSeparator,
    TooManySeparators,
    UnknownAlgorithm(Seq<char>),
}

impl View for KeyIdError {
    type V = SpecKeyIdError;

    open spec fn view(&self) -> SpecKeyIdError {
        match self {
            KeyIdError::MissingSeparator => SpecKeyIdError::MissingSeparator,
            KeyIdError::TooManySeparators => SpecKeyIdError::TooManySeparators,
            KeyIdError::UnknownAlgorithm(s) => SpecKeyIdError::UnknownAlgorithm(s@),
        }
    }
}

/// Outcome of parsing an algorithm token: the algorithm if the token is
/// recognized, otherwise `UnknownAlgorithm` carrying the token.
pub open spec fn spec_parse_algorithm(s: Seq<char>) -> Result<KeyAlgorithm, SpecKeyIdError> {
    match spec_token_algorithm(s) {
        Some(a) => Ok(a),
        None => Err(SpecKeyIdError::UnknownAlgorithm(s)),
    }
}

impl KeyAlgorithm {
    /// The canonical wire token of this algorithm.
    pub fn token(&self) -> (r: &'static str)
        ensures
            r@ == spec_algorithm_token(*self),
    {
        match self {
            KeyAlgorithm::Ed25519 => "ed25519",
            KeyAlgorithm::Curve25519 => "curve25519",
            KeyAlgorithm::SignedCurve25519 => "signed_curve25519",
        }
    }

    /// Parses a canonical algorithm token; any other input fails with
    /// `UnknownAlgorithm` carrying the input verbatim.
    pub fn from_token(s: &str) -> (r: Result<KeyAlgorithm, KeyIdError>)
        ensures
            result_view(r) == spec_parse_algorithm(s@),
    {
        if str_eq(s, "ed25519") {
            Ok(KeyAlgorithm::Ed25519)
        } else if str_eq(s, "curve25519") {
            Ok(KeyAlgorithm::Curve25519)
        } else if str_eq(s, "signed_curve25519") {
            Ok(KeyAlgorithm::SignedCurve25519)
        } else {
            Err(KeyIdError::UnknownAlgorithm(s.to_owned()))
        }
    }
}

/// Additional data added to device key information by intermediate servers.
#[derive(Debug, Clone, PartialEq, Eq)]
pub struct UnsignedDeviceInfo {
    /// The display name which the user set on the device.
    device_display_name: String,
}

impl UnsignedDeviceInfo {
    /// The display name this record carries.
    pub closed spec fn spec_display_name(&self) -> Seq<char> {
        self.device_display_name@
    }

    /// Wraps a device display name.
    pub fn new(device_display_name: String) -> (r: UnsignedDeviceInfo)
        ensures
            r.spec_display_name() == device_display_name@,
    {
        UnsignedDeviceInfo { device_display_name }
    }

    /// The display name which the user set on the device.
    pub fn device_display_name(&self) -> (r: &String)
        ensures
            r@ == self.spec_display_name(),
    {
        &self.device_display_name
    }
}

/// An opaque device identifier. Treated as an uninterpreted token; a device
/// id never contains a `:` by the wire contract.
pub type DeviceId = String;

/// A key algorithm and a device id, combined with a ':'.
#[derive(Debug, Clone, Hash, PartialEq, Eq)]
pub struct AlgorithmAndDeviceId(pub KeyAlgorithm, pub DeviceId);

/// Specification-level form of [`AlgorithmAndDeviceId`].
pub struct SpecKeyId {
    pub algorithm: KeyAlgorithm,
    pub device_id: Seq<char>,
}

impl View for AlgorithmAndDeviceId {
    type V = SpecKeyId;

    open spec fn view(&self) -> SpecKeyId {
        SpecKeyId { algorithm: self.0, device_id: self.1@ }
    }
}

/// The canonical string form of a composite key identifier:
/// the algorithm token, one `:`, then the device id.
pub open spec fn spec_encode_key_id(id: SpecKeyId) -> Seq<char> {
    spec_algorithm_token(id.algorithm) + ":"@ + id.device_id
}

/// Splits `s` at its first `:`.
///
/// Fails with `MissingSeparator` when no `:` is present and with
/// `TooManySeparators` when more than one is; otherwise the left segment
/// must be a recognized algorithm token and the right segment is taken as
/// the device id with no further validation.
pub open spec fn spec_decode_key_id(s: Seq<char>) -> Result<SpecKeyId, SpecKeyIdError> {
    if !s.contains(':') {
        Err(SpecKeyIdError::MissingSeparator)
    } else {
        let i = s.index_of_first(':').unwrap();
        let left = s.subrange(0, i);
        let right = s.subrange(i + 1, s.len() as int);
        if right.contains(':') {
            Err(SpecKeyIdError::TooManySeparators)
        } else {
            match spec_token_algorithm(left) {
                Some(a) => Ok(SpecKeyId { algorithm: a, device_id: right }),
                None => Err(SpecKeyIdError::UnknownAlgorithm(left)),
            }
        }
    }
}

/// No canonical algorithm token contains a `:`.
pub proof fn lemma_algorithm_token_no_colon(a: KeyAlgorithm)
    ensures
        !spec_algorithm_token(a).contains(':'),
{
    reveal_strlit("ed25519");
    reveal_strlit("curve25519");
    reveal_strlit("signed_curve25519");
    let tok = spec_algorithm_token(a);
    assert forall|j: int| 0 <= j < tok.len() implies tok[j] != ':' by {}
    if tok.contains(':') {
        let k = choose|k: int| 0 <= k < tok.len() && tok[k] == ':';
        assert(tok[k] != ':');
    }
}

/// Parsing the canonical token of an algorithm gives that algorithm back.
pub proof fn lemma_token_algorithm_inverse(a: KeyAlgorithm)
    ensures
        spec_token_algorithm(spec_algorithm_token(a)) == Some(a),
{
    reveal_strlit("ed25519");
    reveal_strlit("curve25519");
    reveal_strlit("signed_curve25519");
    assert("ed25519"@.len() == 7);
    assert("curve25519"@.len() == 10);
    assert("signed_curve25519"@.len() == 17);
}

/// Law: decoding an encoded composite key identifier yields the identifier,
/// for every identifier whose device id is free of `:` (the wire contract
/// for device ids).
pub proof fn lemma_key_id_round_trip(id: SpecKeyId)
    requires
        !id.device_id.contains(':'),
    ensures
        spec_decode_key_id(spec_encode_key_id(id)) == Ok::<SpecKeyId, SpecKeyIdError>(id),
{
    let tok = spec_algorithm_token(id.algorithm);
    let e = spec_encode_key_id(id);
    lemma_algorithm_token_no_colon(id.algorithm);
    lemma_token_algorithm_inverse(id.algorithm);
    reveal_strlit(":");
    assert(e[tok.len() as int] == ':');
    assert(e.contains(':'));
    e.index_of_first_ensures(':');
    let idx = e.index_of_first(':').unwrap();
    assert forall|j: int| 0 <= j < tok.len() implies e[j] != ':' by {
        assert(e[j] == tok[j]);
    }
    assert(idx == tok.len());
    let left = e.subrange(0, idx);
    let right = e.subrange(idx + 1, e.len() as int);
    assert(left =~= tok);
    assert(right =~= id.device_id);
    if right.contains(':') {
        let k = choose|k: int| 0 <= k < right.len() && right[k] == ':';
        assert(id.device_id[k] == ':');
        assert(id.device_id.contains(':'));
    }
}

impl AlgorithmAndDeviceId {
    /// Encodes this identifier as `"<algorithm>:<device id>"`. Total.
    pub fn encode(&self) -> (r: String)
        ensures
            r@ == spec_encode_key_id(self@),
    {
        let mut out = String::from_str(self.0.token());
        out.append(":");
        out.append(self.1.as_str());
        out
    }

    /// Decodes `"<algorithm>:<device id>"`, rejecting inputs with no or more
    /// than one `:` and unrecognized algorithm tokens.
    pub fn decode(s: &str) -> (r: Result<AlgorithmAndDeviceId, KeyIdError>)
        ensures
            result_view(r) == spec_decode_key_id(s@),
    {
        let n = s.unicode_len();
        let mut i: usize = 0;
        let mut first: Option<usize> = None;
        while i < n
            invariant
                n == s@.len(),
                i <= n,
                match first {
                    None => forall|j: int| 0 <= j < i ==> s@[j] != ':',
                    Some(f) => f < i && s@[f as int] == ':'
                        && (forall|j: int| 0 <= j < f ==> s@[j] != ':'),
                },
            decreases n - i,
        {
            if first.is_none() && s.get_char(i) == ':' {
                first = Some(i);
            }
            i = i + 1;
        }
        match first {
            None => {
                assert(!s@.contains(':'));
                Err(KeyIdError::MissingSeparator)
            }
            Some(f) => {
                proof {
                    assert(s@.contains(':')) by {
                        assert(s@[f as int] == ':');
                    }
                    s@.index_of_first_ensures(':');
                    let idx = s@.index_of_first(':').unwrap();
                    assert(idx == f) by {
                        if idx < f {
                            assert(s@[idx] != ':');
                        }
                        if idx > f {
                            assert(s@[f as int] != ':');
                        }
                    }
                }
                // Scan the remainder for a second separator.
                let mut j: usize = f + 1;
                let mut second = false;
                while j < n
                    invariant
                        n == s@.len(),
                        f < n,
                        f + 1 <= j <= n,
                        second <==> exists|k: int| f < k < j && s@[k] == ':',
                    decreases n - j,
                {
                    if s.get_char(j) == ':' {
                        second = true;
                    }
                    j = j + 1;
                }
                let ghost right = s@.subrange(f + 1, s@.len() as int);
                proof {
                    assert(second <==> right.contains(':')) by {
                        if second {
                            let k = choose|k: int| f < k < n && s@[k] == ':';
                            assert(right[k - f - 1] == ':');
                        }
                        if right.contains(':') {
                            let k = choose|k: int| 0 <= k < right.len() && right[k] == ':';
                            assert(s@[k + f + 1] == ':');
                        }
                    }
                }
                if second {
                    Err(KeyIdError::TooManySeparators)
                } else {
                    let left = s.substring_char(0, f);
                    let rest = s.substring_char(f + 1, n);
                    match KeyAlgorithm::from_token(left) {
                        Ok(a) => Ok(AlgorithmAndDeviceId(a, rest.to_owned())),
                        Err(e) => Err(e),
                    }
                }
            }
        }
    }
}

} // verus!
