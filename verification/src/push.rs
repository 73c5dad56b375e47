//! Push-notification value types and the hybrid action codec.
//!
//! A push action has two wire representations in the same logical slot:
//! three variants encode as bare strings, while the tweak variant encodes as
//! a tagged object. The decoder therefore dispatches on the shape of the
//! input value, not on a uniform type tag.

use crate::json::spec_entries_view;
use crate::json::JsonValue;
use crate::json::SpecJson;
use crate::result_view;
use crate::str_eq;
use vstd::prelude::*;

verus! {

/// Defines a pusher.
#[derive(Debug, Clone, PartialEq, Eq)]
pub struct Pusher {
    /// A unique identifier for this pusher. Max length, 512 bytes.
    pub pushkey: String,
    /// The kind of the pusher. `None` deletes the pusher when uploaded.
    pub kind: Option<PusherKind>,
    /// A reverse-DNS style identifier for the application. Max length, 64 chars.
    pub app_id: String,
    /// A string that allows the user to identify what application owns this pusher.
    pub app_display_name: String,
    /// A string that allows the user to identify what device owns this pusher.
    pub device_display_name: String,
    /// Determines which set of device specific rules this pusher executes.
    pub profile_tag: Option<String>,
    /// The preferred language for receiving notifications.
    pub lang: String,
    /// Information for the pusher implementation itself.
    pub data: PusherData,
}

/// Which kind a pusher is.
#[derive(Debug, Clone, Copy, PartialEq, Eq, Structural)]
pub enum PusherKind {
    /// A pusher that sends HTTP pokes.
    Http,
    /// A pusher that emails the user with unread notifications.
    Email,
}

/// The wire token of a pusher kind.
pub open spec fn spec_pusher_kind_token(k: PusherKind) -> Seq<char> {
    match k {
        PusherKind::Http => "http"@,
        PusherKind::Email => "email"@,
    }
}

impl PusherKind {
    /// The wire token of this pusher kind.
    pub fn token(&self) -> (r: &'static str)
        ensures
            r@ == spec_pusher_kind_token(*self),
    {
        match self {
            PusherKind::Http => "http",
            PusherKind::Email => "email",
        }
    }
}

/// The pusher kind whose wire token is `s`, if any.
pub open spec fn spec_token_pusher_kind(s: Seq<char>) -> Option<PusherKind> {
    if s == "http"@ {
        Some(PusherKind::Http)
    } else if s == "email"@ {
        Some(PusherKind::Email)
    } else {
        None
    }
}

impl PusherKind {
    /// Parses a wire token into a pusher kind; unrecognized tokens yield
    /// `None`.
    pub fn from_token(s: &str) -> (r: Option<PusherKind>)
        ensures
            r == spec_token_pusher_kind(s@),
    {
        if str_eq(s, "http") {
            Some(PusherKind::Http)
        } else if str_eq(s, "email") {
            Some(PusherKind::Email)
        } else {
            None
        }
    }
}

/// Information for the pusher implementation itself.
#[derive(Debug, Clone, PartialEq, Eq)]
pub struct PusherData {
    /// Required if the pusher's kind is http: the URL to send notifications to.
    pub url: Option<String>,
    /// The format to use when sending notifications to the push gateway.
    pub format: Option<PushFormat>,
}

/// A special format the homeserver should use when sending notifications to
/// a push gateway.
#[derive(Debug, Clone, Copy, PartialEq, Eq, Structural)]
pub enum PushFormat {
    /// The homeserver sends only a reduced set of fields in the push.
    EventIdOnly,
}

/// The wire token of a push format.
pub open spec fn spec_push_format_token(f: PushFormat) -> Seq<char> {
    match f {
        PushFormat::EventIdOnly => "event_id_only"@,
    }
}

impl PushFormat {
    /// The wire token of this push format.
    pub fn token(&self) -> (r: &'static str)
        ensures
            r@ == spec_push_format_token(*self),
    {
        match self {
            PushFormat::EventIdOnly => "event_id_only",
        }
    }
}

/// The push format whose wire token is `s`, if any.
pub open spec fn spec_token_push_format(s: Seq<char>) -> Option<PushFormat> {
    if s == "event_id_only"@ {
        Some(PushFormat::EventIdOnly)
    } else {
        None
    }
}

impl PushFormat {
    /// Parses a wire token into a push format; unrecognized tokens yield
    /// `None`.
    pub fn from_token(s: &str) -> (r: Option<PushFormat>)
        ensures
            r == spec_token_push_format(s@),
    {
        if str_eq(s, "event_id_only") {
            Some(PushFormat::EventIdOnly)
        } else {
            None
        }
    }
}

/// The different kinds of tweaks available.
#[derive(Debug, Clone, PartialEq, Eq)]
pub enum TweakKind {
    /// The "sound" tweak.
    Sound,
    /// The "highlight" tweak.
    Highlight,
    /// A custom client-defined tweak, carrying its token verbatim.
    Custom(String),
}

/// Specification-level form of [`TweakKind`].
pub enum SpecTweakKind {
    Sound,
    Highlight,
    Custom(Seq<char>),
}

impl View for TweakKind {
    type V = SpecTweakKind;

    open spec fn view(&self) -> SpecTweakKind {
        match self {
            TweakKind::Sound => SpecTweakKind::Sound,
            TweakKind::Highlight => SpecTweakKind::Highlight,
            TweakKind::Custom(s) => SpecTweakKind::Custom(s@),
        }
    }
}

impl DeepView for TweakKind {
    type V = SpecTweakKind;

    open spec fn deep_view(&self) -> SpecTweakKind {
        self.view()
    }
}

/// How a notification is delivered for a matching event.
#[derive(Debug, Clone, PartialEq, Eq)]
pub enum Action {
    /// Causes matching events to generate a notification.
    Notify,
    /// Prevents matching events from generating a notification.
    DontNotify,
    /// Behaves like notify but homeservers may choose to coalesce multiple
    /// events into a single notification.
    Coalesce,
    /// Sets an entry in the 'tweaks' dictionary sent to the push gateway.
    SetTweak {
        /// The kind of this tweak.
        kind: TweakKind,
        /// The value of the tweak, if any; an opaque JSON payload that this
        /// layer never interprets.
        value: Option<JsonValue>,
    },
}

/// Specification-level form of [`Action`].
#[verifier::ext_equal]
pub enum SpecAction {
    Notify,
    DontNotify,
    Coalesce,
    SetTweak { kind: SpecTweakKind, value: Option<SpecJson> },
}

impl View for Action {
    type V = SpecAction;

    open spec fn view(&self) -> SpecAction {
        match self {
            Action::Notify => SpecAction::Notify,
            Action::DontNotify => SpecAction::DontNotify,
            Action::Coalesce => SpecAction::Coalesce,
            Action::SetTweak { kind, value } => SpecAction::SetTweak {
                kind: kind@,
                value: match value {
                    Some(v) => Some(v@),
                    None => None,
                },
            },
        }
    }
}

impl DeepView for Action {
    type V = SpecAction;

    open spec fn deep_view(&self) -> SpecAction {
        self.view()
    }
}

/// The ways decoding an action fails.
#[derive(Debug, Clone, PartialEq, Eq)]
pub enum ActionError {
    /// The input is a string but not one of the three simple action tokens;
    /// carries the string verbatim.
    InvalidSimpleAction(String),
    /// A `set_tweak` entry is present but its value is not a string.
    InvalidTweakKind,
    /// The input is an object with no `set_tweak` entry.
    MissingTweakDiscriminator,
    /// The input is neither a string nor an object.
    InvalidActionShape,
}

/// Specification-level form of [`ActionError`].
pub enum SpecActionError {
    InvalidSimpleAction(Seq<char>),
    InvalidTweakKind,
    MissingTweakDiscriminator,
    InvalidActionShape,
}

impl View for ActionError {
    type V = SpecActionError;

    open spec fn view(&self) -> SpecActionError {
        match self {
            ActionError::InvalidSimpleAction(s) => SpecActionError::InvalidSimpleAction(s@),
            ActionError::InvalidTweakKind => SpecActionError::InvalidTweakKind,
            ActionError::MissingTweakDiscriminator => SpecActionError::MissingTweakDiscriminator,
            ActionError::InvalidActionShape => SpecActionError::InvalidActionShape,
        }
    }
}

/// The wire token of a tweak kind.
pub open spec fn spec_tweak_token(k: SpecTweakKind) -> Seq<char> {
    match k {
        SpecTweakKind::Sound => "sound"@,
        SpecTweakKind::Highlight => "highlight"@,
        SpecTweakKind::Custom(s) => s,
    }
}

/// The tweak kind named by a token: the two well-known tokens map to their
/// kinds, any other token is a custom tweak carrying the token verbatim.
pub open spec fn spec_tweak_of_token(s: Seq<char>) -> SpecTweakKind {
    if s == "sound"@ {
        SpecTweakKind::Sound
    } else if s == "highlight"@ {
        SpecTweakKind::Highlight
    } else {
        SpecTweakKind::Custom(s)
    }
}

/// The wire form of an action. The three simple variants are bare strings;
/// the tweak variant is an object whose `value` field is omitted entirely
/// when the tweak carries no value.
pub open spec fn spec_encode_action(a: SpecAction) -> SpecJson {
    match a {
        SpecAction::Notify => SpecJson::Str("notify"@),
        SpecAction::DontNotify => SpecJson::Str("dont_notify"@),
        SpecAction::Coalesce => SpecJson::Str("coalesce"@),
        SpecAction::SetTweak { kind, value } => SpecJson::Object(
            match value {
                None => seq![("set_tweak"@, SpecJson::Str(spec_tweak_token(kind)))],
                Some(v) => seq![
                    ("set_tweak"@, SpecJson::Str(spec_tweak_token(kind))),
                    ("value"@, v),
                ],
            },
        ),
    }
}

/// One step of the object scan of the action decoder.
///
/// Entries are visited in order. A `set_tweak` entry must hold a string and
/// sets the tweak kind, a `value` entry sets the payload, and in both cases
/// a later entry overrides an earlier one; unrecognized entries are ignored.
/// When the entries are exhausted without a `set_tweak` having been seen,
/// the object is rejected.
pub open spec fn spec_scan_tweak(
    entries: Seq<(Seq<char>, SpecJson)>,
    kind: Option<SpecTweakKind>,
    value: Option<SpecJson>,
) -> Result<SpecAction, SpecActionError>
    decreases entries.len(),
{
    if entries.len() == 0 {
        match kind {
            Some(k) => Ok(SpecAction::SetTweak { kind: k, value }),
            None => Err(SpecActionError::MissingTweakDiscriminator),
        }
    } else if entries[0].0 == "set_tweak"@ {
        match entries[0].1 {
            SpecJson::Str(s) => spec_scan_tweak(
                entries.drop_first(),
                Some(spec_tweak_of_token(s)),
                value,
            ),
            _ => Err(SpecActionError::InvalidTweakKind),
        }
    } else if entries[0].0 == "value"@ {
        spec_scan_tweak(entries.drop_first(), kind, Some(entries[0].1))
    } else {
        spec_scan_tweak(entries.drop_first(), kind, value)
    }
}

/// The action denoted by a wire value.
///
/// A string is matched against the three simple action tokens; an object is
/// scanned for its `set_tweak` and `value` entries; every other shape is
/// rejected.
pub open spec fn spec_decode_action(v: SpecJson) -> Result<SpecAction, SpecActionError> {
    match v {
        SpecJson::Str(s) => {
            if s == "notify"@ {
                Ok(SpecAction::Notify)
            } else if s == "dont_notify"@ {
                Ok(SpecAction::DontNotify)
            } else if s == "coalesce"@ {
                Ok(SpecAction::Coalesce)
            } else {
                Err(SpecActionError::InvalidSimpleAction(s))
            }
        }
        SpecJson::Object(entries) => spec_scan_tweak(entries, None, None),
        _ => Err(SpecActionError::InvalidActionShape),
    }
}

/// Whether an action survives a wire round trip intact: every action except
/// a custom tweak whose token collides with one of the two well-known tweak
/// tokens (such a token decodes back to the well-known kind instead).
pub open spec fn spec_action_wf(a: SpecAction) -> bool {
    match a {
        SpecAction::SetTweak { kind, value } => match kind {
            SpecTweakKind::Custom(name) => name != "sound"@ && name != "highlight"@,
            _ => true,
        },
        _ => true,
    }
}

/// Law: decoding an encoded action yields a structurally equal action, for
/// every well-formed action (see [`spec_action_wf`]).
pub proof fn lemma_action_round_trip(a: SpecAction)
    requires
        spec_action_wf(a),
    ensures
        spec_decode_action(spec_encode_action(a)) == Ok::<SpecAction, SpecActionError>(a),
{
    reveal_strlit("notify");
    reveal_strlit("dont_notify");
    reveal_strlit("coalesce");
    reveal_strlit("set_tweak");
    reveal_strlit("value");
    reveal_strlit("sound");
    reveal_strlit("highlight");
    assert("notify"@.len() == 6);
    assert("dont_notify"@.len() == 11);
    assert("coalesce"@.len() == 8);
    assert("set_tweak"@.len() == 9);
    assert("value"@.len() == 5);
    assert("sound"@.len() == 5);
    assert("highlight"@.len() == 9);
    assert("value"@ != "set_tweak"@) by {
        assert("value"@.len() != "set_tweak"@.len());
    }
    match a {
        SpecAction::SetTweak { kind, value } => {
            let tok = spec_tweak_token(kind);
            assert(spec_tweak_of_token(tok) == kind);
            match value {
                None => {
                    let entries = seq![("set_tweak"@, SpecJson::Str(tok))];
                    assert(spec_encode_action(a) == SpecJson::Object(entries));
                    let rest = entries.drop_first();
                    assert(rest =~= Seq::<(Seq<char>, SpecJson)>::empty());
                    assert(entries[0] == ("set_tweak"@, SpecJson::Str(tok)));
                    assert(spec_scan_tweak(entries, None, None) == spec_scan_tweak(
                        rest,
                        Some(kind),
                        None,
                    ));
                    assert(spec_scan_tweak(rest, Some(kind), None) == Ok::<
                        SpecAction,
                        SpecActionError,
                    >(SpecAction::SetTweak { kind, value: None }));
                }
                Some(v) => {
                    let entries = seq![
                        ("set_tweak"@, SpecJson::Str(tok)),
                        ("value"@, v),
                    ];
                    assert(spec_encode_action(a) == SpecJson::Object(entries));
                    assert(entries[0] == ("set_tweak"@, SpecJson::Str(tok)));
                    assert(entries[1] == ("value"@, v));
                    let rest = entries.drop_first();
                    assert(rest =~= seq![("value"@, v)]);
                    assert(rest[0] == ("value"@, v));
                    let rest2 = rest.drop_first();
                    assert(rest2 =~= Seq::<(Seq<char>, SpecJson)>::empty());
                    assert(spec_scan_tweak(entries, None, None) == spec_scan_tweak(
                        rest,
                        Some(kind),
                        None,
                    ));
                    assert(spec_scan_tweak(rest, Some(kind), None) == spec_scan_tweak(
                        rest2,
                        Some(kind),
                        Some(v),
                    ));
                    assert(spec_scan_tweak(rest2, Some(kind), Some(v)) == Ok::<
                        SpecAction,
                        SpecActionError,
                    >(SpecAction::SetTweak { kind, value: Some(v) }));
                }
            }
        }
        _ => {}
    }
}

impl TweakKind {
    /// The wire token of this tweak kind.
    pub fn token(&self) -> (r: String)
        ensures
            r@ == spec_tweak_token(self@),
    {
        match self {
            TweakKind::Sound => "sound".to_owned(),
            TweakKind::Highlight => "highlight".to_owned(),
            TweakKind::Custom(s) => s.clone(),
        }
    }

    /// The tweak kind named by a wire token. Total: unrecognized tokens
    /// become custom tweaks.
    pub fn from_token(s: &str) -> (r: TweakKind)
        ensures
            r@ == spec_tweak_of_token(s@),
    {
        if str_eq(s, "sound") {
            TweakKind::Sound
        } else if str_eq(s, "highlight") {
            TweakKind::Highlight
        } else {
            TweakKind::Custom(s.to_owned())
        }
    }
}

impl Action {
    /// Encodes this action as its wire value. Total.
    pub fn encode(&self) -> (r: JsonValue)
        ensures
            r@ == spec_encode_action(self@),
    {
        match self {
            Action::Notify => JsonValue::Str("notify".to_owned()),
            Action::DontNotify => JsonValue::Str("dont_notify".to_owned()),
            Action::Coalesce => JsonValue::Str("coalesce".to_owned()),
            Action::SetTweak { kind, value } => {
                let token = kind.token();
                let mut entries: Vec<(String, JsonValue)> = Vec::new();
                entries.push(("set_tweak".to_owned(), JsonValue::Str(token)));
                match value {
                    Some(v) => entries.push(("value".to_owned(), v.clone())),
                    None => {}
                }
                let r = JsonValue::Object(entries);
                proof {
                    assert(spec_entries_view(entries@) =~= (match spec_encode_action(self@) {
                        SpecJson::Object(e) => e,
                        _ => Seq::empty(),
                    }));
                }
                r
            }
        }
    }

    /// Decodes a wire value into an action, dispatching on its shape.
    pub fn decode(v: &JsonValue) -> (r: Result<Action, ActionError>)
        ensures
            result_view(r) == spec_decode_action(v@),
    {
        match v {
            JsonValue::Str(s) => {
                if str_eq(s.as_str(), "notify") {
                    Ok(Action::Notify)
                } else if str_eq(s.as_str(), "dont_notify") {
                    Ok(Action::DontNotify)
                } else if str_eq(s.as_str(), "coalesce") {
                    Ok(Action::Coalesce)
                } else {
                    Err(ActionError::InvalidSimpleAction(s.clone()))
                }
            }
            JsonValue::Object(entries) => {
                let ghost obj = spec_entries_view(entries@);
                proof {
                    assert(obj.skip(0) =~= obj);
                }
                let mut kind: Option<TweakKind> = None;
                let mut value: Option<JsonValue> = None;
                let mut i: usize = 0;
                while i < entries.len()
                    invariant
                        *v == JsonValue::Object(*entries),
                        obj == spec_entries_view(entries@),
                        i <= entries.len(),
                        spec_scan_tweak(obj, None, None) == spec_scan_tweak(
                            obj.skip(i as int),
                            kind.deep_view(),
                            value.deep_view(),
                        ),
                    decreases entries.len() - i,
                {
                    proof {
                        assert(obj.skip(i as int)[0] == (
                            entries@[i as int].0@,
                            entries@[i as int].1@,
                        ));
                        assert(obj.skip(i as int).drop_first() =~= obj.skip(i + 1));
                    }
                    if str_eq(entries[i].0.as_str(), "set_tweak") {
                        match &entries[i].1 {
                            JsonValue::Str(s) => {
                                kind = Some(TweakKind::from_token(s.as_str()));
                            }
                            _ => {
                                return Err(ActionError::InvalidTweakKind);
                            }
                        }
                    } else if str_eq(entries[i].0.as_str(), "value") {
                        value = Some(entries[i].1.clone());
                    }
                    i = i + 1;
                }
                proof {
                    assert(obj.skip(i as int) =~= Seq::<(Seq<char>, SpecJson)>::empty());
                }
                match kind {
                    Some(k) => Ok(Action::SetTweak { kind: k, value }),
                    None => Err(ActionError::MissingTweakDiscriminator),
                }
            }
            JsonValue::Null => Err(ActionError::InvalidActionShape),
            JsonValue::Bool(_) => Err(ActionError::InvalidActionShape),
            JsonValue::Number(_) => Err(ActionError::InvalidActionShape),
            JsonValue::Array(_) => Err(ActionError::InvalidActionShape),
        }
    }
}

} // verus!
