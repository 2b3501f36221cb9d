use luarmor::combinator::{read_envelope, unit_response};
use luarmor::models::response::LuarmorMessage;
use luarmor::models::v3::projects::users::{create_user_response, users_response};
use luarmor::ApiError;

#[test]
fn empty_body_under_http_500_is_a_response_error() {
    let r = unit_response(500, "");
    assert_eq!(r, Err(ApiError::Response { status: 500, body: String::new() }));
}

#[test]
fn empty_body_under_http_200_is_a_decode_error() {
    let r = unit_response(200, "");
    assert_eq!(r, Err(ApiError::Decode { body: String::new() }));
}

#[test]
fn create_user_success_returns_the_new_key() {
    let body = r#"{"success":true,"message":"Success!","user_key":"abc123"}"#;
    let r = create_user_response(200, body);
    assert_eq!(r.unwrap().user_key, "abc123".to_string());
}

#[test]
fn success_without_payload_is_a_response_error_never_a_default() {
    let body = r#"{"success":true,"message":"Success!"}"#;
    let r = create_user_response(200, body);
    assert_eq!(r, Err(ApiError::Response { status: 200, body: body.to_string() }));
}

#[test]
fn success_with_wrongly_typed_payload_is_a_response_error() {
    let body = r#"{"success":true,"message":"Success!","user_key":7}"#;
    let r = create_user_response(200, body);
    assert_eq!(r, Err(ApiError::Response { status: 200, body: body.to_string() }));
}

#[test]
fn failure_envelope_is_a_client_error_with_the_decoded_message() {
    let body = r#"{"success":false,"message":"Key not found"}"#;
    let r = users_response(200, body);
    assert_eq!(r, Err(ApiError::Client { message: LuarmorMessage::KeyNotFound }));
}

#[test]
fn failure_envelope_beats_http_status() {
    // A failure envelope yields a client error whatever the HTTP status.
    let body = r#"{"success":false,"message":"User is on cooldown."}"#;
    for status in [200u16, 400, 500] {
        let r = unit_response(status, body);
        assert_eq!(r, Err(ApiError::Client { message: LuarmorMessage::UserCooldown }));
    }
}

#[test]
fn failure_envelope_with_unknown_message_keeps_the_text() {
    let body = r#"{"success":false,"message":"brand new error"}"#;
    let r = unit_response(400, body);
    assert_eq!(
        r,
        Err(ApiError::Client { message: LuarmorMessage::Other("brand new error".to_string()) }),
    );
}

#[test]
fn malformed_json_is_a_decode_error() {
    let body = "{not json";
    let r = unit_response(200, body);
    assert_eq!(r, Err(ApiError::Decode { body: body.to_string() }));
}

#[test]
fn envelope_without_message_is_a_decode_error() {
    let body = r#"{"success":true}"#;
    let r = unit_response(200, body);
    assert_eq!(r, Err(ApiError::Decode { body: body.to_string() }));
}

#[test]
fn envelope_with_non_boolean_success_is_a_decode_error() {
    let body = r#"{"success":1,"message":"Success!"}"#;
    let r = unit_response(200, body);
    assert_eq!(r, Err(ApiError::Decode { body: body.to_string() }));
}

#[test]
fn unit_operation_succeeds_on_a_bare_success_envelope() {
    let body = r#"{"success":true,"message":"Successfully reset!"}"#;
    let r = unit_response(200, body);
    assert_eq!(r, Ok(()));
}

#[test]
fn ignoring_errors_skips_the_empty_body_check() {
    // With ignore_errors the empty failing response reaches the parser,
    // which rejects it as unreadable rather than as a server error.
    let r = read_envelope(500, "", true);
    assert_eq!(r.unwrap_err(), ApiError::Decode { body: String::new() });
    // Without it the raw response comes back.
    let r = read_envelope(500, "", false);
    assert_eq!(r.unwrap_err(), ApiError::Response { status: 500, body: String::new() });
}

#[test]
fn envelope_is_read_from_the_first_matching_fields() {
    let body = r#"{"message":"Success!","success":true,"user_key":"k"}"#;
    let (success, message, _obj) = read_envelope(200, body, false).unwrap();
    assert!(success);
    assert_eq!(message, LuarmorMessage::Success);
}
