use matrix_codec::keys::AlgorithmAndDeviceId;
use matrix_codec::keys::KeyAlgorithm;
use matrix_codec::keys::KeyIdError;

#[test]
fn algorithm_tokens_are_canonical() {
    assert_eq!(KeyAlgorithm::Ed25519.token(), "ed25519");
    assert_eq!(KeyAlgorithm::Curve25519.token(), "curve25519");
    assert_eq!(KeyAlgorithm::SignedCurve25519.token(), "signed_curve25519");
}

#[test]
fn algorithm_from_token_parses_each_token() {
    assert_eq!(KeyAlgorithm::from_token("ed25519"), Ok(KeyAlgorithm::Ed25519));
    assert_eq!(KeyAlgorithm::from_token("curve25519"), Ok(KeyAlgorithm::Curve25519));
    assert_eq!(
        KeyAlgorithm::from_token("signed_curve25519"),
        Ok(KeyAlgorithm::SignedCurve25519)
    );
}

#[test]
fn algorithm_from_token_is_case_sensitive() {
    assert_eq!(
        KeyAlgorithm::from_token("ED25519"),
        Err(KeyIdError::UnknownAlgorithm("ED25519".to_string()))
    );
}

#[test]
fn encode_joins_algorithm_and_device_id_with_colon() {
    let id = AlgorithmAndDeviceId(KeyAlgorithm::SignedCurve25519, "KEY".to_string());
    assert_eq!(id.encode(), "signed_curve25519:KEY");
}

#[test]
fn decode_ed25519_key_id() {
    assert_eq!(
        AlgorithmAndDeviceId::decode("ed25519:ABCDEF"),
        Ok(AlgorithmAndDeviceId(KeyAlgorithm::Ed25519, "ABCDEF".to_string()))
    );
}

#[test]
fn decode_unknown_algorithm_keeps_token() {
    assert_eq!(
        AlgorithmAndDeviceId::decode("rot13:ABCDEF"),
        Err(KeyIdError::UnknownAlgorithm("rot13".to_string()))
    );
}

#[test]
fn decode_rejects_second_separator() {
    assert_eq!(
        AlgorithmAndDeviceId::decode("ed25519:AB:CD"),
        Err(KeyIdError::TooManySeparators)
    );
}

#[test]
fn decode_rejects_missing_separator() {
    assert_eq!(
        AlgorithmAndDeviceId::decode("ed25519"),
        Err(KeyIdError::MissingSeparator)
    );
}

#[test]
fn decode_accepts_empty_device_id() {
    assert_eq!(
        AlgorithmAndDeviceId::decode("curve25519:"),
        Ok(AlgorithmAndDeviceId(KeyAlgorithm::Curve25519, String::new()))
    );
}

#[test]
fn key_id_round_trips_through_its_string_form() {
    let ids = vec![
        AlgorithmAndDeviceId(KeyAlgorithm::Ed25519, "JLAFKJWSCS".to_string()),
        AlgorithmAndDeviceId(KeyAlgorithm::Curve25519, "a-b_c".to_string()),
        AlgorithmAndDeviceId(KeyAlgorithm::SignedCurve25519, String::new()),
    ];
    for id in ids {
        assert_eq!(AlgorithmAndDeviceId::decode(id.encode().as_str()), Ok(id));
    }
}
