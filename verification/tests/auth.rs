use sfox::websocket::auth::{
    auth_message, auth_message_check_success, authenticate, WsAuthResponsePayload,
};
use sfox::websocket::decode::{DecodeError, DecodeErrorKind, FromJson};
use sfox::websocket::message::parse_frame;
use sfox::websocket::WebsocketClientError;

#[test]
fn test_auth_success_check() {
    let msg = r#"
        {
            "type": "success",
            "sequence": 1,
            "payload": {
            "action": "authenticate"
            },
            "timestamp": 1589389200000
        }
        "#;

    let valid = auth_message_check_success(msg).unwrap();

    assert!(valid);
}

#[test]
fn test_auth_failure_check() {
    let msg = r#"
        {
            "msgType": "error",
            "payload": {
            "action": "authenticate"
            }
        }
        "#;

    let valid = auth_message_check_success(msg);

    assert!(valid.is_err());
}

#[test]
fn auth_check_names_what_is_missing() {
    let msg = r#"{"msgType": "error", "payload": {"action": "authenticate"}}"#;
    assert_eq!(
        auth_message_check_success(msg),
        Err(WebsocketClientError::DecodeError(DecodeError {
            kind: DecodeErrorKind::MissingField,
            field: "type"
        }))
    );
    let msg = r#"{"type": "success", "payload": {}, "sequence": 1, "timestamp": 2}"#;
    assert_eq!(
        auth_message_check_success(msg),
        Err(WebsocketClientError::DecodeError(DecodeError {
            kind: DecodeErrorKind::MissingField,
            field: "action"
        }))
    );
    assert!(matches!(
        auth_message_check_success("{"),
        Err(WebsocketClientError::ParseError(_))
    ));
}

#[test]
fn auth_check_is_false_for_other_acknowledgements() {
    let other_action = r#"{"type": "success", "sequence": 1, "timestamp": 2,
        "payload": {"action": "subscribe"}}"#;
    assert_eq!(auth_message_check_success(other_action), Ok(false));
    let failed = r#"{"type": "error", "sequence": 1, "timestamp": 2,
        "payload": {"action": "authenticate"}}"#;
    assert_eq!(auth_message_check_success(failed), Ok(false));
}

#[test]
fn auth_frame_carries_the_token() {
    assert_eq!(
        auth_message("abc123"),
        "{\"type\":\"authenticate\",\"apiKey\":\"abc123\"}"
    );
    assert_eq!(
        auth_message("a\"b"),
        "{\"type\":\"authenticate\",\"apiKey\":\"a\\\"b\"}"
    );
    assert_eq!(
        authenticate(Some("abc123")),
        Ok("{\"type\":\"authenticate\",\"apiKey\":\"abc123\"}".to_string())
    );
}

#[test]
fn missing_credential_is_an_authentication_error() {
    assert_eq!(
        authenticate(None),
        Err(WebsocketClientError::AuthenticationError(
            "credential not found".to_string()
        ))
    );
}

#[test]
fn auth_payload_holds_the_action() {
    let payload =
        WsAuthResponsePayload::from_json(&parse_frame(r#"{"action": "authenticate"}"#).unwrap());
    assert_eq!(
        payload,
        Ok(WsAuthResponsePayload {
            action: "authenticate".to_string()
        })
    );
}
