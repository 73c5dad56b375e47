use matrix_codec::json::JsonValue;
use matrix_codec::push_rules::ConditionError;
use matrix_codec::push_rules::PushCondition;

fn obj(entries: Vec<(&str, JsonValue)>) -> JsonValue {
    JsonValue::Object(
        entries
            .into_iter()
            .map(|(k, v)| (k.to_string(), v))
            .collect(),
    )
}

fn s(text: &str) -> JsonValue {
    JsonValue::Str(text.to_string())
}

#[test]
fn event_match_decodes_from_its_tagged_object() {
    let wire = obj(vec![
        ("kind", s("event_match")),
        ("key", s("content.body")),
        ("pattern", s("*foo*")),
    ]);
    assert_eq!(
        PushCondition::decode(&wire),
        Ok(PushCondition::EventMatch {
            key: "content.body".to_string(),
            pattern: "*foo*".to_string(),
        })
    );
}

#[test]
fn unknown_condition_kind_is_rejected_with_its_token() {
    let wire = obj(vec![("kind", s("bogus"))]);
    assert_eq!(
        PushCondition::decode(&wire),
        Err(ConditionError::UnknownConditionKind("bogus".to_string()))
    );
}

#[test]
fn absent_kind_is_rejected() {
    let wire = obj(vec![("key", s("content.body"))]);
    assert_eq!(
        PushCondition::decode(&wire),
        Err(ConditionError::UnknownConditionKind(String::new()))
    );
}

#[test]
fn non_string_kind_is_rejected() {
    let wire = obj(vec![("kind", JsonValue::Number("2".to_string()))]);
    assert_eq!(
        PushCondition::decode(&wire),
        Err(ConditionError::UnknownConditionKind(String::new()))
    );
}

#[test]
fn missing_variant_field_is_rejected_with_its_name() {
    let wire = obj(vec![("kind", s("event_match")), ("key", s("content.body"))]);
    assert_eq!(
        PushCondition::decode(&wire),
        Err(ConditionError::MissingField("pattern".to_string()))
    );
}

#[test]
fn non_string_variant_field_is_rejected_with_its_name() {
    let wire = obj(vec![
        ("kind", s("room_member_count")),
        ("is", JsonValue::Number("2".to_string())),
    ]);
    assert_eq!(
        PushCondition::decode(&wire),
        Err(ConditionError::InvalidField("is".to_string()))
    );
}

#[test]
fn non_object_condition_is_rejected() {
    assert_eq!(
        PushCondition::decode(&s("event_match")),
        Err(ConditionError::InvalidConditionShape)
    );
}

#[test]
fn condition_field_order_does_not_matter() {
    let wire = obj(vec![
        ("pattern", s("*foo*")),
        ("key", s("content.body")),
        ("kind", s("event_match")),
    ]);
    assert_eq!(
        PushCondition::decode(&wire),
        Ok(PushCondition::EventMatch {
            key: "content.body".to_string(),
            pattern: "*foo*".to_string(),
        })
    );
}

#[test]
fn encode_emits_kind_first() {
    let condition = PushCondition::RoomMemberCount { is: ">=2".to_string() };
    assert_eq!(
        condition.encode(),
        obj(vec![("kind", s("room_member_count")), ("is", s(">=2"))])
    );
}

#[test]
fn conditions_round_trip_through_their_wire_form() {
    let conditions = vec![
        PushCondition::EventMatch {
            key: "content.body".to_string(),
            pattern: "*foo*".to_string(),
        },
        PushCondition::ContainsDisplayName,
        PushCondition::RoomMemberCount { is: "<10".to_string() },
        PushCondition::SenderNotificationPermission { key: "room".to_string() },
    ];
    for condition in conditions {
        assert_eq!(PushCondition::decode(&condition.encode()), Ok(condition));
    }
}
