//! Push rules: conditions, rules, and the five-category rule set.
//!
//! A push condition is an internally tagged object: an explicit `kind` entry
//! selects the variant, and the remaining entries are decoded structurally
//! per variant. Rules and rule sets are plain structural records that nest
//! the action and condition codecs.

use crate::json::spec_entries_view;
use crate::json::spec_items_view;
use crate::json::spec_object_get;
use crate::json::object_get;
use crate::json::JsonValue;
use crate::json::SpecJson;
use crate::json::lemma_object_get_absent;
use crate::json::lemma_object_get_at;
use crate::push::lemma_action_round_trip;
use crate::push::spec_action_wf;
use crate::push::spec_decode_action;
use crate::push::spec_encode_action;
use crate::push::Action;
use crate::push::ActionError;
use crate::push::SpecAction;
use crate::push::SpecActionError;
use crate::result_deep_view;
use crate::result_view;
use crate::str_eq;
use vstd::prelude::*;

verus! {

/// A condition for a push rule.
#[derive(Debug, Clone, PartialEq, Eq)]
pub enum PushCondition {
    /// A glob pattern match on a field of the event.
    EventMatch {
        /// The dot-separated field of the event to match.
        key: String,
        /// The glob-style pattern to match against.
        pattern: String,
    },
    /// Matches unencrypted messages where `content.body` contains the
    /// owner's display name in that room.
    ContainsDisplayName,
    /// Matches the current number of members in the room.
    RoomMemberCount {
        /// A decimal integer optionally prefixed by a comparison operator,
        /// kept verbatim; this layer performs no numeric parsing.
        is: String,
    },
    /// Takes the room's power levels into account, ensuring the sender has
    /// high enough power to trigger the notification.
    SenderNotificationPermission {
        /// The power-level key the sender must satisfy, such as `room`.
        key: String,
    },
}

/// Specification-level form of [`PushCondition`].
pub enum SpecCondition {
    EventMatch { key: Seq<char>, pattern: Seq<char> },
    ContainsDisplayName,
    RoomMemberCount { is: Seq<char> },
    SenderNotificationPermission { key: Seq<char> },
}

impl View for PushCondition {
    type V = SpecCondition;

    open spec fn view(&self) -> SpecCondition {
        match self {
            PushCondition::EventMatch { key, pattern } => SpecCondition::EventMatch {
                key: key@,
                pattern: pattern@,
            },
            PushCondition::ContainsDisplayName => SpecCondition::ContainsDisplayName,
            PushCondition::RoomMemberCount { is } => SpecCondition::RoomMemberCount { is: is@ },
            PushCondition::SenderNotificationPermission { key } => (
            SpecCondition::SenderNotificationPermission { key: key@ }),
        }
    }
}

impl DeepView for PushCondition {
    type V = SpecCondition;

    open spec fn deep_view(&self) -> SpecCondition {
        self.view()
    }
}

/// The ways decoding a push condition fails.
#[derive(Debug, Clone, PartialEq, Eq)]
pub enum ConditionError {
    /// The `kind` entry names no recognized variant; carries the token
    /// verbatim, or the empty string when the entry is absent or not a
    /// string.
    UnknownConditionKind(String),
    /// A field required by the selected variant is absent; carries the
    /// field name.
    MissingField(String),
    /// A field required by the selected variant is present but not a
    /// string; carries the field name.
    InvalidField(String),
    /// The input is not an object.
    InvalidConditionShape,
}

/// Specification-level form of [`ConditionError`].
pub enum SpecConditionError {
    UnknownConditionKind(Seq<char>),
    MissingField(Seq<char>),
    InvalidField(Seq<char>),
    InvalidConditionShape,
}

impl View for ConditionError {
    type V = SpecConditionError;

    open spec fn view(&self) -> SpecConditionError {
        match self {
            ConditionError::UnknownConditionKind(s) => SpecConditionError::UnknownConditionKind(
                s@,
            ),
            ConditionError::MissingField(s) => SpecConditionError::MissingField(s@),
            ConditionError::InvalidField(s) => SpecConditionError::InvalidField(s@),
            ConditionError::InvalidConditionShape => SpecConditionError::InvalidConditionShape,
        }
    }
}

/// The string held by the first entry of `obj` named `name`: absence and a
/// non-string value are distinct errors, each carrying the field name.
pub open spec fn spec_string_field(obj: Seq<(Seq<char>, SpecJson)>, name: Seq<char>) -> Result<
    Seq<char>,
    SpecConditionError,
> {
    match spec_object_get(obj, name) {
        Some(v) => match v {
            SpecJson::Str(s) => Ok(s),
            _ => Err(SpecConditionError::InvalidField(name)),
        },
        None => Err(SpecConditionError::MissingField(name)),
    }
}

/// The wire form of a push condition: the `kind` discriminator entry first,
/// then the variant's fields.
pub open spec fn spec_encode_condition(c: SpecCondition) -> SpecJson {
    match c {
        SpecCondition::EventMatch { key, pattern } => SpecJson::Object(
            seq![
                ("kind"@, SpecJson::Str("event_match"@)),
                ("key"@, SpecJson::Str(key)),
                ("pattern"@, SpecJson::Str(pattern)),
            ],
        ),
        SpecCondition::ContainsDisplayName => SpecJson::Object(
            seq![("kind"@, SpecJson::Str("contains_display_name"@))],
        ),
        SpecCondition::RoomMemberCount { is } => SpecJson::Object(
            seq![
                ("kind"@, SpecJson::Str("room_member_count"@)),
                ("is"@, SpecJson::Str(is)),
            ],
        ),
        SpecCondition::SenderNotificationPermission { key } => SpecJson::Object(
            seq![
                ("kind"@, SpecJson::Str("sender_notification_permission"@)),
                ("key"@, SpecJson::Str(key)),
            ],
        ),
    }
}

/// The push condition denoted by a wire value.
///
/// The input must be an object; its `kind` entry selects the variant, and
/// the variant's fixed field set is then read structurally. Entries not
/// belonging to the variant are ignored.
pub open spec fn spec_decode_condition(v: SpecJson) -> Result<SpecCondition, SpecConditionError> {
    match v {
        SpecJson::Object(entries) => match spec_object_get(entries, "kind"@) {
            Some(kv) => match kv {
                SpecJson::Str(k) => {
                    if k == "event_match"@ {
                        match spec_string_field(entries, "key"@) {
                            Ok(key) => match spec_string_field(entries, "pattern"@) {
                                Ok(pattern) => Ok(SpecCondition::EventMatch { key, pattern }),
                                Err(e) => Err(e),
                            },
                            Err(e) => Err(e),
                        }
                    } else if k == "contains_display_name"@ {
                        Ok(SpecCondition::ContainsDisplayName)
                    } else if k == "room_member_count"@ {
                        match spec_string_field(entries, "is"@) {
                            Ok(is) => Ok(SpecCondition::RoomMemberCount { is }),
                            Err(e) => Err(e),
                        }
                    } else if k == "sender_notification_permission"@ {
                        match spec_string_field(entries, "key"@) {
                            Ok(key) => Ok(SpecCondition::SenderNotificationPermission { key }),
                            Err(e) => Err(e),
                        }
                    } else {
                        Err(SpecConditionError::UnknownConditionKind(k))
                    }
                }
                _ => Err(SpecConditionError::UnknownConditionKind(Seq::empty())),
            },
            None => Err(SpecConditionError::UnknownConditionKind(Seq::empty())),
        },
        _ => Err(SpecConditionError::InvalidConditionShape),
    }
}

/// Law: decoding an encoded push condition yields the condition, for every
/// condition.
pub proof fn lemma_condition_round_trip(c: SpecCondition)
    ensures
        spec_decode_condition(spec_encode_condition(c)) == Ok::<
            SpecCondition,
            SpecConditionError,
        >(c),
{
    reveal_strlit("kind");
    reveal_strlit("key");
    reveal_strlit("pattern");
    reveal_strlit("is");
    reveal_strlit("event_match");
    reveal_strlit("contains_display_name");
    reveal_strlit("room_member_count");
    reveal_strlit("sender_notification_permission");
    assert("kind"@.len() == 4);
    assert("key"@.len() == 3);
    assert("pattern"@.len() == 7);
    assert("is"@.len() == 2);
    assert("event_match"@.len() == 11);
    assert("contains_display_name"@.len() == 21);
    assert("room_member_count"@.len() == 17);
    assert("sender_notification_permission"@.len() == 30);
    match c {
        SpecCondition::EventMatch { key, pattern } => {
            let entries = seq![
                ("kind"@, SpecJson::Str("event_match"@)),
                ("key"@, SpecJson::Str(key)),
                ("pattern"@, SpecJson::Str(pattern)),
            ];
            assert(spec_encode_condition(c) == SpecJson::Object(entries));
            assert(entries[0] == ("kind"@, SpecJson::Str("event_match"@)));
            assert(entries[1] == ("key"@, SpecJson::Str(key)));
            assert(entries[2] == ("pattern"@, SpecJson::Str(pattern)));
            let d1 = entries.drop_first();
            assert(d1 =~= seq![
                ("key"@, SpecJson::Str(key)),
                ("pattern"@, SpecJson::Str(pattern)),
            ]);
            let d2 = d1.drop_first();
            assert(d2 =~= seq![("pattern"@, SpecJson::Str(pattern))]);
            assert(spec_object_get(entries, "kind"@) == Some(SpecJson::Str("event_match"@)));
            assert(spec_object_get(entries, "key"@) == spec_object_get(d1, "key"@));
            assert(spec_object_get(d1, "key"@) == Some(SpecJson::Str(key)));
            assert(spec_string_field(entries, "key"@) == Ok::<Seq<char>, SpecConditionError>(key));
            assert(spec_object_get(entries, "pattern"@) == spec_object_get(d1, "pattern"@));
            assert(spec_object_get(d1, "pattern"@) == spec_object_get(d2, "pattern"@));
            assert(spec_object_get(d2, "pattern"@) == Some(SpecJson::Str(pattern)));
            assert(spec_string_field(entries, "pattern"@) == Ok::<
                Seq<char>,
                SpecConditionError,
            >(pattern));
        }
        SpecCondition::ContainsDisplayName => {
            let entries = seq![("kind"@, SpecJson::Str("contains_display_name"@))];
            assert(spec_encode_condition(c) == SpecJson::Object(entries));
            assert(entries[0] == ("kind"@, SpecJson::Str("contains_display_name"@)));
            assert(spec_object_get(entries, "kind"@) == Some(
                SpecJson::Str("contains_display_name"@),
            ));
        }
        SpecCondition::RoomMemberCount { is } => {
            let entries = seq![
                ("kind"@, SpecJson::Str("room_member_count"@)),
                ("is"@, SpecJson::Str(is)),
            ];
            assert(spec_encode_condition(c) == SpecJson::Object(entries));
            assert(entries[0] == ("kind"@, SpecJson::Str("room_member_count"@)));
            assert(entries[1] == ("is"@, SpecJson::Str(is)));
            let d1 = entries.drop_first();
            assert(d1 =~= seq![("is"@, SpecJson::Str(is))]);
            assert(spec_object_get(entries, "kind"@) == Some(
                SpecJson::Str("room_member_count"@),
            ));
            assert(spec_object_get(entries, "is"@) == spec_object_get(d1, "is"@));
            assert(spec_object_get(d1, "is"@) == Some(SpecJson::Str(is)));
            assert(spec_string_field(entries, "is"@) == Ok::<Seq<char>, SpecConditionError>(is));
        }
        SpecCondition::SenderNotificationPermission { key } => {
            let entries = seq![
                ("kind"@, SpecJson::Str("sender_notification_permission"@)),
                ("key"@, SpecJson::Str(key)),
            ];
            assert(spec_encode_condition(c) == SpecJson::Object(entries));
            assert(entries[0] == ("kind"@, SpecJson::Str("sender_notification_permission"@)));
            assert(entries[1] == ("key"@, SpecJson::Str(key)));
            let d1 = entries.drop_first();
            assert(d1 =~= seq![("key"@, SpecJson::Str(key))]);
            assert(spec_object_get(entries, "kind"@) == Some(
                SpecJson::Str("sender_notification_permission"@),
            ));
            assert(spec_object_get(entries, "key"@) == spec_object_get(d1, "key"@));
            assert(spec_object_get(d1, "key"@) == Some(SpecJson::Str(key)));
            assert(spec_string_field(entries, "key"@) == Ok::<Seq<char>, SpecConditionError>(key));
        }
    }
}

/// Reads the required string field `name` from a list of object entries.
fn string_field(entries: &Vec<(String, JsonValue)>, name: &str) -> (r: Result<
    String,
    ConditionError,
>)
    ensures
        result_view(r) == spec_string_field(spec_entries_view(entries@), name@),
{
    match object_get(entries, name) {
        Some(v) => match v {
            JsonValue::Str(s) => Ok(s.clone()),
            _ => Err(ConditionError::InvalidField(name.to_owned())),
        },
        None => Err(ConditionError::MissingField(name.to_owned())),
    }
}

impl PushCondition {
    /// Encodes this condition as its wire object: the `kind` discriminator
    /// first, then the variant's fields. Total.
    pub fn encode(&self) -> (r: JsonValue)
        ensures
            r@ == spec_encode_condition(self@),
    {
        let mut entries: Vec<(String, JsonValue)> = Vec::new();
        match self {
            PushCondition::EventMatch { key, pattern } => {
                entries.push(("kind".to_owned(), JsonValue::Str("event_match".to_owned())));
                entries.push(("key".to_owned(), JsonValue::Str(key.clone())));
                entries.push(("pattern".to_owned(), JsonValue::Str(pattern.clone())));
            }
            PushCondition::ContainsDisplayName => {
                entries.push((
                    "kind".to_owned(),
                    JsonValue::Str("contains_display_name".to_owned()),
                ));
            }
            PushCondition::RoomMemberCount { is } => {
                entries.push(("kind".to_owned(), JsonValue::Str("room_member_count".to_owned())));
                entries.push(("is".to_owned(), JsonValue::Str(is.clone())));
            }
            PushCondition::SenderNotificationPermission { key } => {
                entries.push((
                    "kind".to_owned(),
                    JsonValue::Str("sender_notification_permission".to_owned()),
                ));
                entries.push(("key".to_owned(), JsonValue::Str(key.clone())));
            }
        }
        let r = JsonValue::Object(entries);
        proof {
            assert(spec_entries_view(entries@) =~= (match spec_encode_condition(self@) {
                SpecJson::Object(e) => e,
                _ => Seq::empty(),
            }));
        }
        r
    }

    /// Decodes a wire value into a push condition via its `kind`
    /// discriminator.
    pub fn decode(v: &JsonValue) -> (r: Result<PushCondition, ConditionError>)
        ensures
            result_view(r) == spec_decode_condition(v@),
    {
        match v {
            JsonValue::Object(entries) => match object_get(entries, "kind") {
                Some(kv) => match kv {
                    JsonValue::Str(k) => {
                        if str_eq(k.as_str(), "event_match") {
                            match string_field(entries, "key") {
                                Ok(key) => match string_field(entries, "pattern") {
                                    Ok(pattern) => Ok(PushCondition::EventMatch { key, pattern }),
                                    Err(e) => Err(e),
                                },
                                Err(e) => Err(e),
                            }
                        } else if str_eq(k.as_str(), "contains_display_name") {
                            Ok(PushCondition::ContainsDisplayName)
                        } else if str_eq(k.as_str(), "room_member_count") {
                            match string_field(entries, "is") {
                                Ok(is) => Ok(PushCondition::RoomMemberCount { is }),
                                Err(e) => Err(e),
                            }
                        } else if str_eq(k.as_str(), "sender_notification_permission") {
                            match string_field(entries, "key") {
                                Ok(key) => Ok(
                                    PushCondition::SenderNotificationPermission { key },
                                ),
                                Err(e) => Err(e),
                            }
                        } else {
                            Err(ConditionError::UnknownConditionKind(k.clone()))
                        }
                    }
                    _ => Err(ConditionError::UnknownConditionKind(String::new())),
                },
                None => Err(ConditionError::UnknownConditionKind(String::new())),
            },
            _ => Err(ConditionError::InvalidConditionShape),
        }
    }
}

/// A push rule: the actions to perform when a matching event arrives,
/// together with its metadata.
#[derive(Debug, Clone, PartialEq, Eq)]
pub struct PushRule {
    /// The actions to perform when this rule is matched, in order.
    pub actions: Vec<Action>,
    /// Whether this is a default rule, or has been set explicitly.
    pub default: bool,
    /// Whether the push rule is enabled or not.
    pub enabled: bool,
    /// The ID of this rule.
    pub rule_id: String,
    /// The conditions that must hold for the rule to apply, in order. Only
    /// meaningful for override and underride rules.
    pub conditions: Option<Vec<PushCondition>>,
    /// The glob-style pattern to match against. Only meaningful for content
    /// rules.
    pub pattern: Option<String>,
}

/// Specification-level form of [`PushRule`].
#[verifier::ext_equal]
pub struct SpecRule {
    pub actions: Seq<SpecAction>,
    pub default: bool,
    pub enabled: bool,
    pub rule_id: Seq<char>,
    pub conditions: Option<Seq<SpecCondition>>,
    pub pattern: Option<Seq<char>>,
}

impl View for PushRule {
    type V = SpecRule;

    open spec fn view(&self) -> SpecRule {
        SpecRule {
            actions: self.actions.deep_view(),
            default: self.default,
            enabled: self.enabled,
            rule_id: self.rule_id@,
            conditions: self.conditions.deep_view(),
            pattern: self.pattern.deep_view(),
        }
    }
}

impl DeepView for PushRule {
    type V = SpecRule;

    open spec fn deep_view(&self) -> SpecRule {
        self.view()
    }
}

/// The ways decoding a push rule or a rule set fails.
#[derive(Debug, Clone, PartialEq, Eq)]
pub enum RuleError {
    /// A required rule field is absent; carries the field name.
    MissingField(String),
    /// A rule or rule-set field holds a value of the wrong shape; carries
    /// the field name.
    InvalidField(String),
    /// An element of the `actions` array was rejected by the action codec.
    Action(ActionError),
    /// An element of the `conditions` array was rejected by the condition
    /// codec.
    Condition(ConditionError),
    /// The rule input is not an object.
    InvalidRuleShape,
    /// The rule-set input is not an object.
    InvalidRulesetShape,
}

/// Specification-level form of [`RuleError`].
pub enum SpecRuleError {
    MissingField(Seq<char>),
    InvalidField(Seq<char>),
    Action(SpecActionError),
    Condition(SpecConditionError),
    InvalidRuleShape,
    InvalidRulesetShape,
}

impl View for RuleError {
    type V = SpecRuleError;

    open spec fn view(&self) -> SpecRuleError {
        match self {
            RuleError::MissingField(s) => SpecRuleError::MissingField(s@),
            RuleError::InvalidField(s) => SpecRuleError::InvalidField(s@),
            RuleError::Action(e) => SpecRuleError::Action(e@),
            RuleError::Condition(e) => SpecRuleError::Condition(e@),
            RuleError::InvalidRuleShape => SpecRuleError::InvalidRuleShape,
            RuleError::InvalidRulesetShape => SpecRuleError::InvalidRulesetShape,
        }
    }
}

/// The wire form of a sequence of actions, element-wise.
pub open spec fn spec_encode_actions(actions: Seq<SpecAction>) -> Seq<SpecJson> {
    actions.map_values(|a: SpecAction| spec_encode_action(a))
}

/// The wire form of a sequence of conditions, element-wise.
pub open spec fn spec_encode_conditions(conditions: Seq<SpecCondition>) -> Seq<SpecJson> {
    conditions.map_values(|c: SpecCondition| spec_encode_condition(c))
}

/// Decodes a sequence of wire values as actions, stopping at the first
/// failure.
pub open spec fn spec_decode_actions(items: Seq<SpecJson>) -> Result<
    Seq<SpecAction>,
    SpecActionError,
>
    decreases items.len(),
{
    if items.len() == 0 {
        Ok(Seq::empty())
    } else {
        match spec_decode_action(items[0]) {
            Ok(a) => match spec_decode_actions(items.drop_first()) {
                Ok(rest) => Ok(seq![a] + rest),
                Err(e) => Err(e),
            },
            Err(e) => Err(e),
        }
    }
}

/// Decodes a sequence of wire values as conditions, stopping at the first
/// failure.
pub open spec fn spec_decode_conditions(items: Seq<SpecJson>) -> Result<
    Seq<SpecCondition>,
    SpecConditionError,
>
    decreases items.len(),
{
    if items.len() == 0 {
        Ok(Seq::empty())
    } else {
        match spec_decode_condition(items[0]) {
            Ok(c) => match spec_decode_conditions(items.drop_first()) {
                Ok(rest) => Ok(seq![c] + rest),
                Err(e) => Err(e),
            },
            Err(e) => Err(e),
        }
    }
}

/// The `actions` field of a rule object: required, must be an array, and
/// every element must decode as an action.
pub open spec fn spec_rule_actions(obj: Seq<(Seq<char>, SpecJson)>) -> Result<
    Seq<SpecAction>,
    SpecRuleError,
> {
    match spec_object_get(obj, "actions"@) {
        Some(v) => match v {
            SpecJson::Array(items) => match spec_decode_actions(items) {
                Ok(actions) => Ok(actions),
                Err(e) => Err(SpecRuleError::Action(e)),
            },
            _ => Err(SpecRuleError::InvalidField("actions"@)),
        },
        None => Err(SpecRuleError::MissingField("actions"@)),
    }
}

/// A required boolean field of a rule object.
pub open spec fn spec_rule_bool(obj: Seq<(Seq<char>, SpecJson)>, name: Seq<char>) -> Result<
    bool,
    SpecRuleError,
> {
    match spec_object_get(obj, name) {
        Some(v) => match v {
            SpecJson::Bool(b) => Ok(b),
            _ => Err(SpecRuleError::InvalidField(name)),
        },
        None => Err(SpecRuleError::MissingField(name)),
    }
}

/// A required string field of a rule object.
pub open spec fn spec_rule_string(obj: Seq<(Seq<char>, SpecJson)>, name: Seq<char>) -> Result<
    Seq<char>,
    SpecRuleError,
> {
    match spec_object_get(obj, name) {
        Some(v) => match v {
            SpecJson::Str(s) => Ok(s),
            _ => Err(SpecRuleError::InvalidField(name)),
        },
        None => Err(SpecRuleError::MissingField(name)),
    }
}

/// The optional `conditions` field of a rule object: absent stays absent,
/// present must be an array whose elements decode as conditions.
pub open spec fn spec_rule_conditions(obj: Seq<(Seq<char>, SpecJson)>) -> Result<
    Option<Seq<SpecCondition>>,
    SpecRuleError,
> {
    match spec_object_get(obj, "conditions"@) {
        Some(v) => match v {
            SpecJson::Array(items) => match spec_decode_conditions(items) {
                Ok(conditions) => Ok(Some(conditions)),
                Err(e) => Err(SpecRuleError::Condition(e)),
            },
            _ => Err(SpecRuleError::InvalidField("conditions"@)),
        },
        None => Ok(None),
    }
}

/// The optional `pattern` field of a rule object: absent stays absent,
/// present must be a string.
pub open spec fn spec_rule_pattern(obj: Seq<(Seq<char>, SpecJson)>) -> Result<
    Option<Seq<char>>,
    SpecRuleError,
> {
    match spec_object_get(obj, "pattern"@) {
        Some(v) => match v {
            SpecJson::Str(s) => Ok(Some(s)),
            _ => Err(SpecRuleError::InvalidField("pattern"@)),
        },
        None => Ok(None),
    }
}

/// The wire form of a push rule: an object holding `actions`, `default`,
/// `enabled` and `rule_id`, followed by `conditions` and `pattern` when
/// present (an absent optional field is omitted, not emitted as null).
pub open spec fn spec_encode_rule(r: SpecRule) -> SpecJson {
    let base = seq![
        ("actions"@, SpecJson::Array(spec_encode_actions(r.actions))),
        ("default"@, SpecJson::Bool(r.default)),
        ("enabled"@, SpecJson::Bool(r.enabled)),
        ("rule_id"@, SpecJson::Str(r.rule_id)),
    ];
    let with_conditions = match r.conditions {
        Some(cs) => base.push(("conditions"@, SpecJson::Array(spec_encode_conditions(cs)))),
        None => base,
    };
    let all = match r.pattern {
        Some(p) => with_conditions.push(("pattern"@, SpecJson::Str(p))),
        None => with_conditions,
    };
    SpecJson::Object(all)
}

/// The push rule denoted by a wire value. The input must be an object;
/// fields are validated in declaration order: `actions`, `default`,
/// `enabled`, `rule_id`, `conditions`, `pattern`. Unrecognized entries are
/// ignored.
pub open spec fn spec_decode_rule(v: SpecJson) -> Result<SpecRule, SpecRuleError> {
    match v {
        SpecJson::Object(entries) => match spec_rule_actions(entries) {
            Ok(actions) => match spec_rule_bool(entries, "default"@) {
                Ok(default) => match spec_rule_bool(entries, "enabled"@) {
                    Ok(enabled) => match spec_rule_string(entries, "rule_id"@) {
                        Ok(rule_id) => match spec_rule_conditions(entries) {
                            Ok(conditions) => match spec_rule_pattern(entries) {
                                Ok(pattern) => Ok(
                                    SpecRule {
                                        actions,
                                        default,
                                        enabled,
                                        rule_id,
                                        conditions,
                                        pattern,
                                    },
                                ),
                                Err(e) => Err(e),
                            },
                            Err(e) => Err(e),
                        },
                        Err(e) => Err(e),
                    },
                    Err(e) => Err(e),
                },
                Err(e) => Err(e),
            },
            Err(e) => Err(e),
        },
        _ => Err(SpecRuleError::InvalidRuleShape),
    }
}

/// Law: decoding an encoded action sequence yields the sequence, for every
/// sequence of well-formed actions (see `spec_action_wf`).
pub proof fn lemma_actions_round_trip(s: Seq<SpecAction>)
    requires
        forall|i: int| 0 <= i < s.len() ==> spec_action_wf(#[trigger] s[i]),
    ensures
        spec_decode_actions(spec_encode_actions(s)) == Ok::<Seq<SpecAction>, SpecActionError>(s),
    decreases s.len(),
{
    let enc = spec_encode_actions(s);
    if s.len() == 0 {
        assert(enc.len() == 0);
        assert(s =~= Seq::<SpecAction>::empty());
    } else {
        assert(enc.len() == s.len());
        assert(enc[0] == spec_encode_action(s[0]));
        lemma_action_round_trip(s[0]);
        assert(enc.drop_first() =~= spec_encode_actions(s.drop_first()));
        lemma_actions_round_trip(s.drop_first());
        assert(spec_decode_actions(enc.drop_first()) == Ok::<
            Seq<SpecAction>,
            SpecActionError,
        >(s.drop_first()));
        assert(spec_decode_actions(enc) == Ok::<Seq<SpecAction>, SpecActionError>(
            seq![s[0]] + s.drop_first(),
        ));
        assert(seq![s[0]] + s.drop_first() =~= s);
    }
}

/// Law: decoding an encoded condition sequence yields the sequence, for
/// every sequence of conditions.
pub proof fn lemma_conditions_round_trip(s: Seq<SpecCondition>)
    ensures
        spec_decode_conditions(spec_encode_conditions(s)) == Ok::<
            Seq<SpecCondition>,
            SpecConditionError,
        >(s),
    decreases s.len(),
{
    let enc = spec_encode_conditions(s);
    if s.len() == 0 {
        assert(enc.len() == 0);
        assert(s =~= Seq::<SpecCondition>::empty());
    } else {
        assert(enc.len() == s.len());
        assert(enc[0] == spec_encode_condition(s[0]));
        lemma_condition_round_trip(s[0]);
        assert(enc.drop_first() =~= spec_encode_conditions(s.drop_first()));
        lemma_conditions_round_trip(s.drop_first());
        assert(spec_decode_conditions(enc.drop_first()) == Ok::<
            Seq<SpecCondition>,
            SpecConditionError,
        >(s.drop_first()));
        assert(spec_decode_conditions(enc) == Ok::<Seq<SpecCondition>, SpecConditionError>(
            seq![s[0]] + s.drop_first(),
        ));
        assert(seq![s[0]] + s.drop_first() =~= s);
    }
}

/// Whether a rule survives a wire round trip intact: every rule whose
/// actions are all well-formed (see `spec_action_wf`).
pub open spec fn spec_rule_wf(r: SpecRule) -> bool {
    forall|i: int| 0 <= i < r.actions.len() ==> spec_action_wf(#[trigger] r.actions[i])
}

/// Law: decoding an encoded push rule yields the rule, for every
/// well-formed rule (see [`spec_rule_wf`]).
pub proof fn lemma_rule_round_trip(r: SpecRule)
    requires
        spec_rule_wf(r),
    ensures
        spec_decode_rule(spec_encode_rule(r)) == Ok::<SpecRule, SpecRuleError>(r),
{
    reveal_strlit("actions");
    reveal_strlit("default");
    reveal_strlit("enabled");
    reveal_strlit("rule_id");
    reveal_strlit("conditions");
    reveal_strlit("pattern");
    assert("actions"@.len() == 7);
    assert("default"@.len() == 7);
    assert("enabled"@.len() == 7);
    assert("rule_id"@.len() == 7);
    assert("conditions"@.len() == 10);
    assert("pattern"@.len() == 7);
    assert("actions"@ != "default"@) by {
        assert("actions"@[0] == 'a' && "default"@[0] == 'd');
    }
    assert("actions"@ != "enabled"@) by {
        assert("actions"@[0] == 'a' && "enabled"@[0] == 'e');
    }
    assert("actions"@ != "rule_id"@) by {
        assert("actions"@[0] == 'a' && "rule_id"@[0] == 'r');
    }
    assert("actions"@ != "pattern"@) by {
        assert("actions"@[0] == 'a' && "pattern"@[0] == 'p');
    }
    assert("default"@ != "enabled"@) by {
        assert("default"@[0] == 'd' && "enabled"@[0] == 'e');
    }
    assert("default"@ != "rule_id"@) by {
        assert("default"@[0] == 'd' && "rule_id"@[0] == 'r');
    }
    assert("default"@ != "pattern"@) by {
        assert("default"@[0] == 'd' && "pattern"@[0] == 'p');
    }
    assert("enabled"@ != "rule_id"@) by {
        assert("enabled"@[0] == 'e' && "rule_id"@[0] == 'r');
    }
    assert("enabled"@ != "pattern"@) by {
        assert("enabled"@[0] == 'e' && "pattern"@[0] == 'p');
    }
    assert("rule_id"@ != "pattern"@) by {
        assert("rule_id"@[0] == 'r' && "pattern"@[0] == 'p');
    }
    lemma_actions_round_trip(r.actions);
    let entries = match spec_encode_rule(r) {
        SpecJson::Object(e) => e,
        _ => Seq::empty(),
    };
    assert(spec_encode_rule(r) == SpecJson::Object(entries));
    let ea = ("actions"@, SpecJson::Array(spec_encode_actions(r.actions)));
    let ed = ("default"@, SpecJson::Bool(r.default));
    let ee = ("enabled"@, SpecJson::Bool(r.enabled));
    let er = ("rule_id"@, SpecJson::Str(r.rule_id));
    match r.conditions {
        Some(cs) => {
            lemma_conditions_round_trip(cs);
            let ec = ("conditions"@, SpecJson::Array(spec_encode_conditions(cs)));
            match r.pattern {
                Some(p) => {
                    let ep = ("pattern"@, SpecJson::Str(p));
                    assert(entries =~= seq![ea, ed, ee, er, ec, ep]);
                    lemma_object_get_at(entries, 0);
                    lemma_object_get_at(entries, 1);
                    lemma_object_get_at(entries, 2);
                    lemma_object_get_at(entries, 3);
                    lemma_object_get_at(entries, 4);
                    lemma_object_get_at(entries, 5);
                }
                None => {
                    assert(entries =~= seq![ea, ed, ee, er, ec]);
                    lemma_object_get_at(entries, 0);
                    lemma_object_get_at(entries, 1);
                    lemma_object_get_at(entries, 2);
                    lemma_object_get_at(entries, 3);
                    lemma_object_get_at(entries, 4);
                    lemma_object_get_absent(entries, "pattern"@);
                }
            }
        }
        None => {
            match r.pattern {
                Some(p) => {
                    let ep = ("pattern"@, SpecJson::Str(p));
                    assert(entries =~= seq![ea, ed, ee, er, ep]);
                    lemma_object_get_at(entries, 0);
                    lemma_object_get_at(entries, 1);
                    lemma_object_get_at(entries, 2);
                    lemma_object_get_at(entries, 3);
                    lemma_object_get_at(entries, 4);
                    lemma_object_get_absent(entries, "conditions"@);
                }
                None => {
                    assert(entries =~= seq![ea, ed, ee, er]);
                    lemma_object_get_at(entries, 0);
                    lemma_object_get_at(entries, 1);
                    lemma_object_get_at(entries, 2);
                    lemma_object_get_at(entries, 3);
                    lemma_object_get_absent(entries, "conditions"@);
                    lemma_object_get_absent(entries, "pattern"@);
                }
            }
        }
    }
    assert(spec_rule_actions(entries) == Ok::<Seq<SpecAction>, SpecRuleError>(r.actions));
    assert(spec_rule_bool(entries, "default"@) == Ok::<bool, SpecRuleError>(r.default));
    assert(spec_rule_bool(entries, "enabled"@) == Ok::<bool, SpecRuleError>(r.enabled));
    assert(spec_rule_string(entries, "rule_id"@) == Ok::<Seq<char>, SpecRuleError>(r.rule_id));
    assert(spec_rule_conditions(entries) == Ok::<Option<Seq<SpecCondition>>, SpecRuleError>(
        r.conditions,
    ));
    assert(spec_rule_pattern(entries) == Ok::<Option<Seq<char>>, SpecRuleError>(r.pattern));
    assert(SpecRule {
        actions: r.actions,
        default: r.default,
        enabled: r.enabled,
        rule_id: r.rule_id,
        conditions: r.conditions,
        pattern: r.pattern,
    } =~= r);
}

/// Encodes a list of actions element-wise.
pub fn encode_actions(actions: &Vec<Action>) -> (r: Vec<JsonValue>)
    ensures
        spec_items_view(r@) == spec_encode_actions(actions.deep_view()),
{
    let mut out: Vec<JsonValue> = Vec::new();
    let mut i: usize = 0;
    while i < actions.len()
        invariant
            i <= actions.len(),
            out@.len() == i,
            forall|j: int| 0 <= j < i ==> out@[j]@ == spec_encode_action(actions@[j]@),
        decreases actions.len() - i,
    {
        out.push(actions[i].encode());
        i = i + 1;
    }
    proof {
        assert(spec_items_view(out@) =~= spec_encode_actions(actions.deep_view()));
    }
    out
}

/// Encodes a list of conditions element-wise.
pub fn encode_conditions(conditions: &Vec<PushCondition>) -> (r: Vec<JsonValue>)
    ensures
        spec_items_view(r@) == spec_encode_conditions(conditions.deep_view()),
{
    let mut out: Vec<JsonValue> = Vec::new();
    let mut i: usize = 0;
    while i < conditions.len()
        invariant
            i <= conditions.len(),
            out@.len() == i,
            forall|j: int| 0 <= j < i ==> out@[j]@ == spec_encode_condition(conditions@[j]@),
        decreases conditions.len() - i,
    {
        out.push(conditions[i].encode());
        i = i + 1;
    }
    proof {
        assert(spec_items_view(out@) =~= spec_encode_conditions(conditions.deep_view()));
    }
    out
}

/// Decodes a list of wire values as actions, stopping at the first failure.
pub fn decode_actions(items: &Vec<JsonValue>) -> (r: Result<Vec<Action>, ActionError>)
    ensures
        result_deep_view(r) == spec_decode_actions(spec_items_view(items@)),
{
    let ghost sitems = spec_items_view(items@);
    proof {
        assert(sitems.skip(0) =~= sitems);
    }
    let mut out: Vec<Action> = Vec::new();
    let mut i: usize = 0;
    while i < items.len()
        invariant
            sitems == spec_items_view(items@),
            i <= items.len(),
            out@.len() == i,
            spec_decode_actions(sitems) == (match spec_decode_actions(sitems.skip(i as int)) {
                Ok(rest) => Ok::<Seq<SpecAction>, SpecActionError>(out.deep_view() + rest),
                Err(e) => Err(e),
            }),
        decreases items.len() - i,
    {
        proof {
            assert(sitems.skip(i as int)[0] == items@[i as int]@);
            assert(sitems.skip(i as int).drop_first() =~= sitems.skip(i + 1));
        }
        let ghost dv_old = out.deep_view();
        match Action::decode(&items[i]) {
            Ok(a) => {
                out.push(a);
                proof {
                    assert(out.deep_view() =~= dv_old.push(a@));
                    match spec_decode_actions(sitems.skip(i + 1)) {
                        Ok(rest) => {
                            assert(out.deep_view() + rest =~= dv_old + (seq![a@] + rest));
                        }
                        Err(_) => {}
                    }
                }
            }
            Err(e) => {
                return Err(e);
            }
        }
        i = i + 1;
    }
    proof {
        assert(sitems.skip(i as int) =~= Seq::<SpecJson>::empty());
        assert(out.deep_view() + Seq::<SpecAction>::empty() =~= out.deep_view());
    }
    Ok(out)
}

/// Decodes a list of wire values as conditions, stopping at the first
/// failure.
pub fn decode_conditions(items: &Vec<JsonValue>) -> (r: Result<Vec<PushCondition>, ConditionError>)
    ensures
        result_deep_view(r) == spec_decode_conditions(spec_items_view(items@)),
{
    let ghost sitems = spec_items_view(items@);
    proof {
        assert(sitems.skip(0) =~= sitems);
    }
    let mut out: Vec<PushCondition> = Vec::new();
    let mut i: usize = 0;
    while i < items.len()
        invariant
            sitems == spec_items_view(items@),
            i <= items.len(),
            out@.len() == i,
            spec_decode_conditions(sitems) == (match spec_decode_conditions(
                sitems.skip(i as int),
            ) {
                Ok(rest) => Ok::<Seq<SpecCondition>, SpecConditionError>(out.deep_view() + rest),
                Err(e) => Err(e),
            }),
        decreases items.len() - i,
    {
        proof {
            assert(sitems.skip(i as int)[0] == items@[i as int]@);
            assert(sitems.skip(i as int).drop_first() =~= sitems.skip(i + 1));
        }
        let ghost dv_old = out.deep_view();
        match PushCondition::decode(&items[i]) {
            Ok(c) => {
                out.push(c);
                proof {
                    assert(out.deep_view() =~= dv_old.push(c@));
                    match spec_decode_conditions(sitems.skip(i + 1)) {
                        Ok(rest) => {
                            assert(out.deep_view() + rest =~= dv_old + (seq![c@] + rest));
                        }
                        Err(_) => {}
                    }
                }
            }
            Err(e) => {
                return Err(e);
            }
        }
        i = i + 1;
    }
    proof {
        assert(sitems.skip(i as int) =~= Seq::<SpecJson>::empty());
        assert(out.deep_view() + Seq::<SpecCondition>::empty() =~= out.deep_view());
    }
    Ok(out)
}

impl PushRule {
    /// Encodes this rule as its wire object; absent optional fields are
    /// omitted entirely. Total.
    pub fn encode(&self) -> (r: JsonValue)
        ensures
            r@ == spec_encode_rule(self@),
    {
        let mut entries: Vec<(String, JsonValue)> = Vec::new();
        entries.push(("actions".to_owned(), JsonValue::Array(encode_actions(&self.actions))));
        entries.push(("default".to_owned(), JsonValue::Bool(self.default)));
        entries.push(("enabled".to_owned(), JsonValue::Bool(self.enabled)));
        entries.push(("rule_id".to_owned(), JsonValue::Str(self.rule_id.clone())));
        match &self.conditions {
            Some(cs) => {
                entries.push(("conditions".to_owned(), JsonValue::Array(encode_conditions(cs))));
            }
            None => {}
        }
        match &self.pattern {
            Some(p) => {
                entries.push(("pattern".to_owned(), JsonValue::Str(p.clone())));
            }
            None => {}
        }
        let r = JsonValue::Object(entries);
        proof {
            assert(spec_entries_view(entries@) =~= (match spec_encode_rule(self@) {
                SpecJson::Object(e) => e,
                _ => Seq::empty(),
            }));
        }
        r
    }

    /// Decodes a wire value into a push rule. The input must be an object
    /// with `actions`, `default`, `enabled` and `rule_id` entries;
    /// `conditions` and `pattern` are optional; unrecognized entries are
    /// ignored.
    pub fn decode(v: &JsonValue) -> (r: Result<PushRule, RuleError>)
        ensures
            result_view(r) == spec_decode_rule(v@),
    {
        let entries = match v {
            JsonValue::Object(entries) => entries,
            _ => {
                return Err(RuleError::InvalidRuleShape);
            }
        };
        let actions = match object_get(entries, "actions") {
            Some(av) => match av {
                JsonValue::Array(items) => match decode_actions(items) {
                    Ok(actions) => actions,
                    Err(e) => {
                        return Err(RuleError::Action(e));
                    }
                },
                _ => {
                    return Err(RuleError::InvalidField("actions".to_owned()));
                }
            },
            None => {
                return Err(RuleError::MissingField("actions".to_owned()));
            }
        };
        let default = match object_get(entries, "default") {
            Some(bv) => match bv {
                JsonValue::Bool(b) => *b,
                _ => {
                    return Err(RuleError::InvalidField("default".to_owned()));
                }
            },
            None => {
                return Err(RuleError::MissingField("default".to_owned()));
            }
        };
        let enabled = match object_get(entries, "enabled") {
            Some(bv) => match bv {
                JsonValue::Bool(b) => *b,
                _ => {
                    return Err(RuleError::InvalidField("enabled".to_owned()));
                }
            },
            None => {
                return Err(RuleError::MissingField("enabled".to_owned()));
            }
        };
        let rule_id = match object_get(entries, "rule_id") {
            Some(sv) => match sv {
                JsonValue::Str(s) => s.clone(),
                _ => {
                    return Err(RuleError::InvalidField("rule_id".to_owned()));
                }
            },
            None => {
                return Err(RuleError::MissingField("rule_id".to_owned()));
            }
        };
        let conditions = match object_get(entries, "conditions") {
            Some(cv) => match cv {
                JsonValue::Array(items) => match decode_conditions(items) {
                    Ok(conditions) => Some(conditions),
                    Err(e) => {
                        return Err(RuleError::Condition(e));
                    }
                },
                _ => {
                    return Err(RuleError::InvalidField("conditions".to_owned()));
                }
            },
            None => None,
        };
        let pattern = match object_get(entries, "pattern") {
            Some(pv) => match pv {
                JsonValue::Str(s) => Some(s.clone()),
                _ => {
                    return Err(RuleError::InvalidField("pattern".to_owned()));
                }
            },
            None => None,
        };
        Ok(PushRule { actions, default, enabled, rule_id, conditions, pattern })
    }
}

/// A user's push rules, partitioned into five priority categories.
#[derive(Debug, Clone, PartialEq, Eq)]
pub struct Ruleset {
    /// Content-specific rules; wire key `content`.
    pub content_rules: Vec<PushRule>,
    /// User-configured rules that override all other kinds; wire key
    /// `override`.
    pub override_rules: Vec<PushRule>,
    /// Room-specific rules; wire key `room`.
    pub room_rules: Vec<PushRule>,
    /// Sender-specific rules; wire key `sender`.
    pub sender_rules: Vec<PushRule>,
    /// Lowest priority user-defined rules; wire key `underride`.
    pub underride_rules: Vec<PushRule>,
}

/// Specification-level form of [`Ruleset`].
#[verifier::ext_equal]
pub struct SpecRuleset {
    pub content_rules: Seq<SpecRule>,
    pub override_rules: Seq<SpecRule>,
    pub room_rules: Seq<SpecRule>,
    pub sender_rules: Seq<SpecRule>,
    pub underride_rules: Seq<SpecRule>,
}

impl View for Ruleset {
    type V = SpecRuleset;

    open spec fn view(&self) -> SpecRuleset {
        SpecRuleset {
            content_rules: self.content_rules.deep_view(),
            override_rules: self.override_rules.deep_view(),
            room_rules: self.room_rules.deep_view(),
            sender_rules: self.sender_rules.deep_view(),
            underride_rules: self.underride_rules.deep_view(),
        }
    }
}

/// The wire form of a sequence of rules, element-wise.
pub open spec fn spec_encode_rules(rules: Seq<SpecRule>) -> Seq<SpecJson> {
    rules.map_values(|r: SpecRule| spec_encode_rule(r))
}

/// Decodes a sequence of wire values as rules, stopping at the first
/// failure.
pub open spec fn spec_decode_rules(items: Seq<SpecJson>) -> Result<Seq<SpecRule>, SpecRuleError>
    decreases items.len(),
{
    if items.len() == 0 {
        Ok(Seq::empty())
    } else {
        match spec_decode_rule(items[0]) {
            Ok(r) => match spec_decode_rules(items.drop_first()) {
                Ok(rest) => Ok(seq![r] + rest),
                Err(e) => Err(e),
            },
            Err(e) => Err(e),
        }
    }
}

/// One category of a rule-set object: an absent key is an empty category,
/// a present key must hold an array whose elements decode as rules.
pub open spec fn spec_ruleset_category(obj: Seq<(Seq<char>, SpecJson)>, name: Seq<char>) -> Result<
    Seq<SpecRule>,
    SpecRuleError,
> {
    match spec_object_get(obj, name) {
        Some(v) => match v {
            SpecJson::Array(items) => spec_decode_rules(items),
            _ => Err(SpecRuleError::InvalidField(name)),
        },
        None => Ok(Seq::empty()),
    }
}

/// The wire form of a rule set: an object holding all five category keys in
/// the fixed order `content`, `override`, `room`, `sender`, `underride`,
/// each an array of encoded rules (an empty category is emitted as an empty
/// array, never omitted).
pub open spec fn spec_encode_ruleset(rs: SpecRuleset) -> SpecJson {
    SpecJson::Object(
        seq![
            ("content"@, SpecJson::Array(spec_encode_rules(rs.content_rules))),
            ("override"@, SpecJson::Array(spec_encode_rules(rs.override_rules))),
            ("room"@, SpecJson::Array(spec_encode_rules(rs.room_rules))),
            ("sender"@, SpecJson::Array(spec_encode_rules(rs.sender_rules))),
            ("underride"@, SpecJson::Array(spec_encode_rules(rs.underride_rules))),
        ],
    )
}

/// The rule set denoted by a wire value. The input must be an object; each
/// of the five category keys is optional, and a missing category is an
/// empty sequence, not an error.
pub open spec fn spec_decode_ruleset(v: SpecJson) -> Result<SpecRuleset, SpecRuleError> {
    match v {
        SpecJson::Object(entries) => match spec_ruleset_category(entries, "content"@) {
            Ok(content_rules) => match spec_ruleset_category(entries, "override"@) {
                Ok(override_rules) => match spec_ruleset_category(entries, "room"@) {
                    Ok(room_rules) => match spec_ruleset_category(entries, "sender"@) {
                        Ok(sender_rules) => match spec_ruleset_category(entries, "underride"@) {
                            Ok(underride_rules) => Ok(
                                SpecRuleset {
                                    content_rules,
                                    override_rules,
                                    room_rules,
                                    sender_rules,
                                    underride_rules,
                                },
                            ),
                            Err(e) => Err(e),
                        },
                        Err(e) => Err(e),
                    },
                    Err(e) => Err(e),
                },
                Err(e) => Err(e),
            },
            Err(e) => Err(e),
        },
        _ => Err(SpecRuleError::InvalidRulesetShape),
    }
}

/// Law: decoding an encoded rule sequence yields the sequence, for every
/// sequence of well-formed rules (see `spec_rule_wf`).
pub proof fn lemma_rules_round_trip(s: Seq<SpecRule>)
    requires
        forall|i: int| 0 <= i < s.len() ==> spec_rule_wf(#[trigger] s[i]),
    ensures
        spec_decode_rules(spec_encode_rules(s)) == Ok::<Seq<SpecRule>, SpecRuleError>(s),
    decreases s.len(),
{
    let enc = spec_encode_rules(s);
    if s.len() == 0 {
        assert(enc.len() == 0);
        assert(s =~= Seq::<SpecRule>::empty());
    } else {
        assert(enc.len() == s.len());
        assert(enc[0] == spec_encode_rule(s[0]));
        lemma_rule_round_trip(s[0]);
        assert(enc.drop_first() =~= spec_encode_rules(s.drop_first()));
        lemma_rules_round_trip(s.drop_first());
        assert(spec_decode_rules(enc.drop_first()) == Ok::<Seq<SpecRule>, SpecRuleError>(
            s.drop_first(),
        ));
        assert(spec_decode_rules(enc) == Ok::<Seq<SpecRule>, SpecRuleError>(
            seq![s[0]] + s.drop_first(),
        ));
        assert(seq![s[0]] + s.drop_first() =~= s);
    }
}

/// Whether a rule set survives a wire round trip intact: every rule set
/// all of whose rules are well-formed (see `spec_rule_wf`).
pub open spec fn spec_ruleset_wf(rs: SpecRuleset) -> bool {
    &&& forall|i: int|
        0 <= i < rs.content_rules.len() ==> spec_rule_wf(#[trigger] rs.content_rules[i])
    &&& forall|i: int|
        0 <= i < rs.override_rules.len() ==> spec_rule_wf(#[trigger] rs.override_rules[i])
    &&& forall|i: int| 0 <= i < rs.room_rules.len() ==> spec_rule_wf(#[trigger] rs.room_rules[i])
    &&& forall|i: int|
        0 <= i < rs.sender_rules.len() ==> spec_rule_wf(#[trigger] rs.sender_rules[i])
    &&& forall|i: int|
        0 <= i < rs.underride_rules.len() ==> spec_rule_wf(#[trigger] rs.underride_rules[i])
}

/// Law: decoding an encoded rule set yields the rule set, for every
/// well-formed rule set (see [`spec_ruleset_wf`]).
pub proof fn lemma_ruleset_round_trip(rs: SpecRuleset)
    requires
        spec_ruleset_wf(rs),
    ensures
        spec_decode_ruleset(spec_encode_ruleset(rs)) == Ok::<SpecRuleset, SpecRuleError>(rs),
{
    reveal_strlit("content");
    reveal_strlit("override");
    reveal_strlit("room");
    reveal_strlit("sender");
    reveal_strlit("underride");
    assert("content"@.len() == 7);
    assert("override"@.len() == 8);
    assert("room"@.len() == 4);
    assert("sender"@.len() == 6);
    assert("underride"@.len() == 9);
    lemma_rules_round_trip(rs.content_rules);
    lemma_rules_round_trip(rs.override_rules);
    lemma_rules_round_trip(rs.room_rules);
    lemma_rules_round_trip(rs.sender_rules);
    lemma_rules_round_trip(rs.underride_rules);
    let entries = match spec_encode_ruleset(rs) {
        SpecJson::Object(e) => e,
        _ => Seq::empty(),
    };
    assert(spec_encode_ruleset(rs) == SpecJson::Object(entries));
    assert(entries[0] == ("content"@, SpecJson::Array(spec_encode_rules(rs.content_rules))));
    assert(entries[1] == ("override"@, SpecJson::Array(spec_encode_rules(rs.override_rules))));
    assert(entries[2] == ("room"@, SpecJson::Array(spec_encode_rules(rs.room_rules))));
    assert(entries[3] == ("sender"@, SpecJson::Array(spec_encode_rules(rs.sender_rules))));
    assert(entries[4] == ("underride"@, SpecJson::Array(spec_encode_rules(rs.underride_rules))));
    lemma_object_get_at(entries, 0);
    lemma_object_get_at(entries, 1);
    lemma_object_get_at(entries, 2);
    lemma_object_get_at(entries, 3);
    lemma_object_get_at(entries, 4);
    assert(spec_ruleset_category(entries, "content"@) == Ok::<Seq<SpecRule>, SpecRuleError>(
        rs.content_rules,
    ));
    assert(spec_ruleset_category(entries, "override"@) == Ok::<Seq<SpecRule>, SpecRuleError>(
        rs.override_rules,
    ));
    assert(spec_ruleset_category(entries, "room"@) == Ok::<Seq<SpecRule>, SpecRuleError>(
        rs.room_rules,
    ));
    assert(spec_ruleset_category(entries, "sender"@) == Ok::<Seq<SpecRule>, SpecRuleError>(
        rs.sender_rules,
    ));
    assert(spec_ruleset_category(entries, "underride"@) == Ok::<Seq<SpecRule>, SpecRuleError>(
        rs.underride_rules,
    ));
    assert(SpecRuleset {
        content_rules: rs.content_rules,
        override_rules: rs.override_rules,
        room_rules: rs.room_rules,
        sender_rules: rs.sender_rules,
        underride_rules: rs.underride_rules,
    } =~= rs);
}

/// Law: a category key that is absent from a rule-set object decodes to the
/// empty category, never to an error.
pub proof fn lemma_absent_category_empty(obj: Seq<(Seq<char>, SpecJson)>, name: Seq<char>)
    requires
        spec_object_get(obj, name) is None,
    ensures
        spec_ruleset_category(obj, name) == Ok::<Seq<SpecRule>, SpecRuleError>(Seq::empty()),
{
}

/// Encodes a list of rules element-wise.
pub fn encode_rules(rules: &Vec<PushRule>) -> (r: Vec<JsonValue>)
    ensures
        spec_items_view(r@) == spec_encode_rules(rules.deep_view()),
{
    let mut out: Vec<JsonValue> = Vec::new();
    let mut i: usize = 0;
    while i < rules.len()
        invariant
            i <= rules.len(),
            out@.len() == i,
            forall|j: int| 0 <= j < i ==> out@[j]@ == spec_encode_rule(rules@[j]@),
        decreases rules.len() - i,
    {
        out.push(rules[i].encode());
        i = i + 1;
    }
    proof {
        assert(spec_items_view(out@) =~= spec_encode_rules(rules.deep_view()));
    }
    out
}

/// Decodes a list of wire values as rules, stopping at the first failure.
pub fn decode_rules(items: &Vec<JsonValue>) -> (r: Result<Vec<PushRule>, RuleError>)
    ensures
        result_deep_view(r) == spec_decode_rules(spec_items_view(items@)),
{
    let ghost sitems = spec_items_view(items@);
    proof {
        assert(sitems.skip(0) =~= sitems);
    }
    let mut out: Vec<PushRule> = Vec::new();
    let mut i: usize = 0;
    while i < items.len()
        invariant
            sitems == spec_items_view(items@),
            i <= items.len(),
            out@.len() == i,
            spec_decode_rules(sitems) == (match spec_decode_rules(sitems.skip(i as int)) {
                Ok(rest) => Ok::<Seq<SpecRule>, SpecRuleError>(out.deep_view() + rest),
                Err(e) => Err(e),
            }),
        decreases items.len() - i,
    {
        proof {
            assert(sitems.skip(i as int)[0] == items@[i as int]@);
            assert(sitems.skip(i as int).drop_first() =~= sitems.skip(i + 1));
        }
        let ghost dv_old = out.deep_view();
        match PushRule::decode(&items[i]) {
            Ok(r) => {
                out.push(r);
                proof {
                    assert(out.deep_view() =~= dv_old.push(r@));
                    match spec_decode_rules(sitems.skip(i + 1)) {
                        Ok(rest) => {
                            assert(out.deep_view() + rest =~= dv_old + (seq![r@] + rest));
                        }
                        Err(_) => {}
                    }
                }
            }
            Err(e) => {
                return Err(e);
            }
        }
        i = i + 1;
    }
    proof {
        assert(sitems.skip(i as int) =~= Seq::<SpecJson>::empty());
        assert(out.deep_view() + Seq::<SpecRule>::empty() =~= out.deep_view());
    }
    Ok(out)
}

/// Reads one category array out of a rule-set object; a missing key yields
/// an empty category.
fn ruleset_category(entries: &Vec<(String, JsonValue)>, name: &str) -> (r: Result<
    Vec<PushRule>,
    RuleError,
>)
    ensures
        result_deep_view(r) == spec_ruleset_category(spec_entries_view(entries@), name@),
{
    match object_get(entries, name) {
        Some(v) => match v {
            JsonValue::Array(items) => decode_rules(items),
            _ => Err(RuleError::InvalidField(name.to_owned())),
        },
        None => {
            let out: Vec<PushRule> = Vec::new();
            proof {
                assert(out.deep_view() =~= Seq::<SpecRule>::empty());
            }
            Ok(out)
        }
    }
}

impl Ruleset {
    /// Encodes this rule set as its wire object, all five category keys
    /// present in the fixed order `content`, `override`, `room`, `sender`,
    /// `underride`. Total.
    pub fn encode(&self) -> (r: JsonValue)
        ensures
            r@ == spec_encode_ruleset(self@),
    {
        let mut entries: Vec<(String, JsonValue)> = Vec::new();
        entries.push(("content".to_owned(), JsonValue::Array(encode_rules(&self.content_rules))));
        entries.push((
            "override".to_owned(),
            JsonValue::Array(encode_rules(&self.override_rules)),
        ));
        entries.push(("room".to_owned(), JsonValue::Array(encode_rules(&self.room_rules))));
        entries.push(("sender".to_owned(), JsonValue::Array(encode_rules(&self.sender_rules))));
        entries.push((
            "underride".to_owned(),
            JsonValue::Array(encode_rules(&self.underride_rules)),
        ));
        let r = JsonValue::Object(entries);
        proof {
            assert(spec_entries_view(entries@) =~= (match spec_encode_ruleset(self@) {
                SpecJson::Object(e) => e,
                _ => Seq::empty(),
            }));
        }
        r
    }

    /// Decodes a wire value into a rule set. The input must be an object;
    /// each category key is optional, and a missing category yields an
    /// empty sequence rather than an error.
    pub fn decode(v: &JsonValue) -> (r: Result<Ruleset, RuleError>)
        ensures
            result_view(r) == spec_decode_ruleset(v@),
    {
        let entries = match v {
            JsonValue::Object(entries) => entries,
            _ => {
                return Err(RuleError::InvalidRulesetShape);
            }
        };
        let content_rules = match ruleset_category(entries, "content") {
            Ok(rules) => rules,
            Err(e) => {
                return Err(e);
            }
        };
        let override_rules = match ruleset_category(entries, "override") {
            Ok(rules) => rules,
            Err(e) => {
                return Err(e);
            }
        };
        let room_rules = match ruleset_category(entries, "room") {
            Ok(rules) => rules,
            Err(e) => {
                return Err(e);
            }
        };
        let sender_rules = match ruleset_category(entries, "sender") {
            Ok(rules) => rules,
            Err(e) => {
                return Err(e);
            }
        };
        let underride_rules = match ruleset_category(entries, "underride") {
            Ok(rules) => rules,
            Err(e) => {
                return Err(e);
            }
        };
        Ok(Ruleset { content_rules, override_rules, room_rules, sender_rules, underride_rules })
    }
}

} // verus!
