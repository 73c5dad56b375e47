use matrix_codec::json::JsonValue;
use matrix_codec::push::Action;
use matrix_codec::push::ActionError;
use matrix_codec::push::TweakKind;

fn obj(entries: Vec<(&str, JsonValue)>) -> JsonValue {
    JsonValue::Object(
        entries
            .into_iter()
            .map(|(k, v)| (k.to_string(), v))
            .collect(),
    )
}

fn s(text: &str) -> JsonValue {
    JsonValue::Str(text.to_string())
}

#[test]
fn simple_actions_decode_from_their_tokens() {
    assert_eq!(Action::decode(&s("notify")), Ok(Action::Notify));
    assert_eq!(Action::decode(&s("dont_notify")), Ok(Action::DontNotify));
    assert_eq!(Action::decode(&s("coalesce")), Ok(Action::Coalesce));
}

#[test]
fn dont_notify_encodes_to_its_token() {
    assert_eq!(Action::DontNotify.encode(), s("dont_notify"));
}

#[test]
fn unrecognized_simple_action_is_rejected_with_its_token() {
    assert_eq!(
        Action::decode(&s("shout")),
        Err(ActionError::InvalidSimpleAction("shout".to_string()))
    );
}

#[test]
fn sound_tweak_without_value_decodes_and_reencodes() {
    let wire = obj(vec![("set_tweak", s("sound"))]);
    let action = Action::SetTweak { kind: TweakKind::Sound, value: None };
    assert_eq!(Action::decode(&wire), Ok(action.clone()));
    assert_eq!(action.encode(), wire);
}

#[test]
fn highlight_tweak_with_value_decodes_and_reencodes() {
    let wire = obj(vec![
        ("set_tweak", s("highlight")),
        ("value", JsonValue::Bool(true)),
    ]);
    let action = Action::SetTweak {
        kind: TweakKind::Highlight,
        value: Some(JsonValue::Bool(true)),
    };
    assert_eq!(Action::decode(&wire), Ok(action.clone()));
    assert_eq!(action.encode(), wire);
}

#[test]
fn object_without_set_tweak_is_rejected() {
    let wire = obj(vec![("value", JsonValue::Number("1".to_string()))]);
    assert_eq!(
        Action::decode(&wire),
        Err(ActionError::MissingTweakDiscriminator)
    );
}

#[test]
fn non_string_set_tweak_is_rejected() {
    let wire = obj(vec![("set_tweak", JsonValue::Number("5".to_string()))]);
    assert_eq!(Action::decode(&wire), Err(ActionError::InvalidTweakKind));
}

#[test]
fn non_string_non_object_shapes_are_rejected() {
    assert_eq!(
        Action::decode(&JsonValue::Bool(true)),
        Err(ActionError::InvalidActionShape)
    );
    assert_eq!(
        Action::decode(&JsonValue::Number("3".to_string())),
        Err(ActionError::InvalidActionShape)
    );
    assert_eq!(
        Action::decode(&JsonValue::Array(vec![])),
        Err(ActionError::InvalidActionShape)
    );
    assert_eq!(
        Action::decode(&JsonValue::Null),
        Err(ActionError::InvalidActionShape)
    );
}

#[test]
fn tweak_field_order_does_not_matter() {
    let wire = obj(vec![
        ("value", JsonValue::Bool(true)),
        ("set_tweak", s("sound")),
    ]);
    assert_eq!(
        Action::decode(&wire),
        Ok(Action::SetTweak { kind: TweakKind::Sound, value: Some(JsonValue::Bool(true)) })
    );
}

#[test]
fn unrecognized_tweak_entries_are_ignored() {
    let wire = obj(vec![
        ("volume", JsonValue::Number("11".to_string())),
        ("set_tweak", s("sound")),
    ]);
    assert_eq!(
        Action::decode(&wire),
        Ok(Action::SetTweak { kind: TweakKind::Sound, value: None })
    );
}

#[test]
fn custom_tweak_token_is_preserved_verbatim() {
    let wire = obj(vec![("set_tweak", s("ring")), ("value", s("loud"))]);
    let action = Action::SetTweak {
        kind: TweakKind::Custom("ring".to_string()),
        value: Some(s("loud")),
    };
    assert_eq!(Action::decode(&wire), Ok(action.clone()));
    assert_eq!(action.encode(), wire);
}

#[test]
fn tweak_tokens_parse_to_their_kinds() {
    assert_eq!(TweakKind::from_token("sound"), TweakKind::Sound);
    assert_eq!(TweakKind::from_token("highlight"), TweakKind::Highlight);
    assert_eq!(
        TweakKind::from_token("ring"),
        TweakKind::Custom("ring".to_string())
    );
    assert_eq!(TweakKind::Sound.token(), "sound");
    assert_eq!(TweakKind::Highlight.token(), "highlight");
    assert_eq!(TweakKind::Custom("ring".to_string()).token(), "ring");
}

#[test]
fn actions_round_trip_through_their_wire_form() {
    let actions = vec![
        Action::Notify,
        Action::DontNotify,
        Action::Coalesce,
        Action::SetTweak { kind: TweakKind::Sound, value: Some(s("default")) },
        Action::SetTweak { kind: TweakKind::Highlight, value: None },
        Action::SetTweak {
            kind: TweakKind::Custom("ring".to_string()),
            value: Some(JsonValue::Array(vec![JsonValue::Null, JsonValue::Bool(false)])),
        },
    ];
    for action in actions {
        assert_eq!(Action::decode(&action.encode()), Ok(action));
    }
}
