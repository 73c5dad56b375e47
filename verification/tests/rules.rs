use matrix_codec::json::JsonValue;
use matrix_codec::push::Action;
use matrix_codec::push::ActionError;
use matrix_codec::push::TweakKind;
use matrix_codec::push_rules::ConditionError;
use matrix_codec::push_rules::PushCondition;
use matrix_codec::push_rules::PushRule;
use matrix_codec::push_rules::RuleError;
use matrix_codec::push_rules::Ruleset;

fn obj(entries: Vec<(&str, JsonValue)>) -> JsonValue {
    JsonValue::Object(
        entries
            .into_iter()
            .map(|(k, v)| (k.to_string(), v))
            .collect(),
    )
}

fn s(text: &str) -> JsonValue {
    JsonValue::Str(text.to_string())
}

fn sample_rule() -> PushRule {
    PushRule {
        actions: vec![
            Action::Notify,
            Action::SetTweak { kind: TweakKind::Sound, value: Some(s("default")) },
        ],
        default: true,
        enabled: true,
        rule_id: ".m.rule.message".to_string(),
        conditions: Some(vec![PushCondition::EventMatch {
            key: "type".to_string(),
            pattern: "m.room.message".to_string(),
        }]),
        pattern: None,
    }
}

fn sample_rule_wire() -> JsonValue {
    obj(vec![
        (
            "actions",
            JsonValue::Array(vec![
                s("notify"),
                obj(vec![("set_tweak", s("sound")), ("value", s("default"))]),
            ]),
        ),
        ("default", JsonValue::Bool(true)),
        ("enabled", JsonValue::Bool(true)),
        ("rule_id", s(".m.rule.message")),
        (
            "conditions",
            JsonValue::Array(vec![obj(vec![
                ("kind", s("event_match")),
                ("key", s("type")),
                ("pattern", s("m.room.message")),
            ])]),
        ),
    ])
}

#[test]
fn rule_encodes_to_its_wire_object() {
    assert_eq!(sample_rule().encode(), sample_rule_wire());
}

#[test]
fn rule_decodes_from_its_wire_object() {
    assert_eq!(PushRule::decode(&sample_rule_wire()), Ok(sample_rule()));
}

#[test]
fn rule_with_pattern_round_trips() {
    let rule = PushRule {
        actions: vec![Action::Coalesce],
        default: false,
        enabled: true,
        rule_id: "my.rule".to_string(),
        conditions: None,
        pattern: Some("*party*".to_string()),
    };
    assert_eq!(PushRule::decode(&rule.encode()), Ok(rule));
}

#[test]
fn rule_without_actions_is_rejected() {
    let wire = obj(vec![
        ("default", JsonValue::Bool(false)),
        ("enabled", JsonValue::Bool(true)),
        ("rule_id", s("r")),
    ]);
    assert_eq!(
        PushRule::decode(&wire),
        Err(RuleError::MissingField("actions".to_string()))
    );
}

#[test]
fn rule_with_non_bool_enabled_is_rejected() {
    let wire = obj(vec![
        ("actions", JsonValue::Array(vec![])),
        ("default", JsonValue::Bool(false)),
        ("enabled", s("yes")),
        ("rule_id", s("r")),
    ]);
    assert_eq!(
        PushRule::decode(&wire),
        Err(RuleError::InvalidField("enabled".to_string()))
    );
}

#[test]
fn rule_with_bad_nested_action_reports_the_action_error() {
    let wire = obj(vec![
        ("actions", JsonValue::Array(vec![s("shout")])),
        ("default", JsonValue::Bool(false)),
        ("enabled", JsonValue::Bool(true)),
        ("rule_id", s("r")),
    ]);
    assert_eq!(
        PushRule::decode(&wire),
        Err(RuleError::Action(ActionError::InvalidSimpleAction(
            "shout".to_string()
        )))
    );
}

#[test]
fn rule_with_bad_nested_condition_reports_the_condition_error() {
    let wire = obj(vec![
        ("actions", JsonValue::Array(vec![])),
        ("default", JsonValue::Bool(false)),
        ("enabled", JsonValue::Bool(true)),
        ("rule_id", s("r")),
        ("conditions", JsonValue::Array(vec![obj(vec![("kind", s("bogus"))])])),
    ]);
    assert_eq!(
        PushRule::decode(&wire),
        Err(RuleError::Condition(ConditionError::UnknownConditionKind(
            "bogus".to_string()
        )))
    );
}

#[test]
fn non_object_rule_is_rejected() {
    assert_eq!(
        PushRule::decode(&JsonValue::Null),
        Err(RuleError::InvalidRuleShape)
    );
}

#[test]
fn ruleset_with_missing_category_decodes_it_as_empty() {
    let wire = obj(vec![
        ("content", JsonValue::Array(vec![])),
        ("override", JsonValue::Array(vec![sample_rule_wire()])),
        ("room", JsonValue::Array(vec![])),
        ("underride", JsonValue::Array(vec![])),
    ]);
    let decoded = Ruleset::decode(&wire).unwrap();
    assert_eq!(decoded.sender_rules, Vec::new());
    assert_eq!(decoded.override_rules, vec![sample_rule()]);
}

#[test]
fn reencoding_a_sparse_ruleset_fabricates_no_rules() {
    let wire = obj(vec![("override", JsonValue::Array(vec![sample_rule_wire()]))]);
    let decoded = Ruleset::decode(&wire).unwrap();
    let reencoded = decoded.encode();
    assert_eq!(
        reencoded,
        obj(vec![
            ("content", JsonValue::Array(vec![])),
            ("override", JsonValue::Array(vec![sample_rule_wire()])),
            ("room", JsonValue::Array(vec![])),
            ("sender", JsonValue::Array(vec![])),
            ("underride", JsonValue::Array(vec![])),
        ])
    );
}

#[test]
fn empty_object_decodes_to_the_empty_ruleset() {
    let decoded = Ruleset::decode(&obj(vec![])).unwrap();
    assert_eq!(
        decoded,
        Ruleset {
            content_rules: vec![],
            override_rules: vec![],
            room_rules: vec![],
            sender_rules: vec![],
            underride_rules: vec![],
        }
    );
}

#[test]
fn non_array_category_is_rejected() {
    let wire = obj(vec![("room", JsonValue::Bool(true))]);
    assert_eq!(
        Ruleset::decode(&wire),
        Err(RuleError::InvalidField("room".to_string()))
    );
}

#[test]
fn non_object_ruleset_is_rejected() {
    assert_eq!(
        Ruleset::decode(&JsonValue::Array(vec![])),
        Err(RuleError::InvalidRulesetShape)
    );
}

#[test]
fn ruleset_round_trips_through_its_wire_form() {
    let ruleset = Ruleset {
        content_rules: vec![PushRule {
            actions: vec![Action::Notify],
            default: true,
            enabled: true,
            rule_id: "content".to_string(),
            conditions: None,
            pattern: Some("hello".to_string()),
        }],
        override_rules: vec![sample_rule()],
        room_rules: vec![],
        sender_rules: vec![],
        underride_rules: vec![PushRule {
            actions: vec![Action::DontNotify],
            default: false,
            enabled: false,
            rule_id: "quiet".to_string(),
            conditions: Some(vec![PushCondition::ContainsDisplayName]),
            pattern: None,
        }],
    };
    assert_eq!(Ruleset::decode(&ruleset.encode()), Ok(ruleset));
}
