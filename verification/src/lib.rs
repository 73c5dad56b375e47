//! Codec layer for a chat protocol's push-notification and key-management
//! wire shapes.
//!
//! The wire format mixes plain scalar encodings with tagged-object encodings
//! inside the same logical field, and uses colon-delimited composite strings
//! as map keys. This crate provides the value types together with verified
//! encoders and decoders: composite key identifiers (`keys`), the hybrid
//! string-or-object push action (`push`), internally tagged push conditions
//! and rule sets (`push_rules`), and a small JSON document model (`json`)
//! that the object codecs work over.

pub mod json;
pub mod keys;
pub mod push;
pub mod push_rules;
pub mod session;

use vstd::prelude::*;

verus! {

/// Maps a `Result` of viewable values to the `Result` of their views.
///
/// Decoder contracts use this to state that the executable outcome, success
/// or failure, agrees exactly with the outcome of the specification-level
/// decoder.
pub open spec fn result_view<T: View, E: View>(r: Result<T, E>) -> Result<T::V, E::V> {
    match r {
        Ok(t) => Ok(t.view()),
        Err(e) => Err(e.view()),
    }
}

/// Maps a `Result` whose success value is a container to the `Result` of
/// the success value's deep view and the error's view.
pub open spec fn result_deep_view<T: DeepView, E: View>(r: Result<T, E>) -> Result<T::V, E::V> {
    match r {
        Ok(t) => Ok(t.deep_view()),
        Err(e) => Err(e.view()),
    }
}

/// Compares two string slices by their character sequences.
pub fn str_eq(a: &str, b: &str) -> (r: bool)
    ensures
        r == (a@ == b@),
{
    let sa: String = a.to_owned();
    let sb: String = b.to_owned();
    sa == sb
}

} // verus!
