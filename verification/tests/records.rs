use matrix_codec::json::object_get;
use matrix_codec::json::JsonValue;
use matrix_codec::keys::UnsignedDeviceInfo;
use matrix_codec::push::PushFormat;
use matrix_codec::push::Pusher;
use matrix_codec::push::PusherData;
use matrix_codec::push::PusherKind;
use matrix_codec::session::LoginFlow;
use matrix_codec::session::LoginType;

#[test]
fn pusher_kind_tokens_round_trip() {
    assert_eq!(PusherKind::Http.token(), "http");
    assert_eq!(PusherKind::Email.token(), "email");
    assert_eq!(PusherKind::from_token("http"), Some(PusherKind::Http));
    assert_eq!(PusherKind::from_token("email"), Some(PusherKind::Email));
    assert_eq!(PusherKind::from_token("pigeon"), None);
}

#[test]
fn push_format_tokens_round_trip() {
    assert_eq!(PushFormat::EventIdOnly.token(), "event_id_only");
    assert_eq!(
        PushFormat::from_token("event_id_only"),
        Some(PushFormat::EventIdOnly)
    );
    assert_eq!(PushFormat::from_token("full"), None);
}

#[test]
fn login_type_tokens_round_trip() {
    assert_eq!(LoginType::Password.token(), "m.login.password");
    assert_eq!(LoginType::Token.token(), "m.login.token");
    assert_eq!(
        LoginType::from_token("m.login.password"),
        Some(LoginType::Password)
    );
    assert_eq!(LoginType::from_token("m.login.token"), Some(LoginType::Token));
    assert_eq!(LoginType::from_token("m.login.sso"), None);
    let flow = LoginFlow { login_type: LoginType::Password };
    assert_eq!(flow.login_type.token(), "m.login.password");
}

#[test]
fn unsigned_device_info_keeps_its_display_name() {
    let info = UnsignedDeviceInfo::new("Alice's phone".to_string());
    assert_eq!(info.device_display_name(), "Alice's phone");
}

#[test]
fn pusher_record_holds_its_fields() {
    let pusher = Pusher {
        pushkey: "APA91bH".to_string(),
        kind: Some(PusherKind::Http),
        app_id: "com.example.app".to_string(),
        app_display_name: "Example".to_string(),
        device_display_name: "Phone".to_string(),
        profile_tag: None,
        lang: "en-US".to_string(),
        data: PusherData {
            url: Some("https://push.example.com/notify".to_string()),
            format: Some(PushFormat::EventIdOnly),
        },
    };
    assert_eq!(pusher.kind, Some(PusherKind::Http));
    assert_eq!(pusher.data.format, Some(PushFormat::EventIdOnly));
}

#[test]
fn json_clone_preserves_the_document() {
    let doc = JsonValue::Object(vec![
        ("a".to_string(), JsonValue::Array(vec![JsonValue::Null, JsonValue::Bool(true)])),
        ("b".to_string(), JsonValue::Number("2.5".to_string())),
        ("c".to_string(), JsonValue::Str("text".to_string())),
    ]);
    assert_eq!(doc.clone(), doc);
}

#[test]
fn object_get_finds_the_first_matching_entry() {
    let entries = vec![
        ("k".to_string(), JsonValue::Str("first".to_string())),
        ("k".to_string(), JsonValue::Str("second".to_string())),
    ];
    assert_eq!(
        object_get(&entries, "k"),
        Some(&JsonValue::Str("first".to_string()))
    );
    assert_eq!(object_get(&entries, "missing"), None);
}
