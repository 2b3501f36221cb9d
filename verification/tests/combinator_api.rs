use luarmor::models::response::LuarmorMessage;
use luarmor::models::status::ApiStatus;
use luarmor::models::v3::projects::users::decode_create_user_response;
use luarmor::{ApiError, Luarmor, LuarmorResponse};

#[test]
fn finalise_reads_the_envelope_of_an_endpoint() {
    let wrapped = Luarmor(ApiStatus);
    let body = "{\"success\":true,\"message\":\"Success!\",\"user_key\":\"abc\"}";
    let (success, message, obj) = wrapped.finalise(200, body).unwrap();
    assert!(success);
    assert_eq!(message, LuarmorMessage::Success);
    // The returned object still carries the payload fields.
    let payload = decode_create_user_response(&obj).unwrap();
    assert_eq!(payload.user_key, "abc".to_string());
}

#[test]
fn finalise_rejects_an_empty_failing_response() {
    let wrapped = Luarmor(ApiStatus);
    let r = wrapped.finalise(404, "");
    assert_eq!(r.unwrap_err(), ApiError::Response { status: 404, body: String::new() });
}

#[test]
fn into_result_takes_the_payload_of_a_success() {
    let envelope = LuarmorResponse {
        success: true,
        message: LuarmorMessage::Success,
        data: Some(7u32),
    };
    assert_eq!(envelope.into_result(200, "raw"), Ok(7u32));
}

#[test]
fn into_result_reports_a_missing_payload_as_the_raw_response() {
    let envelope: LuarmorResponse<u32> = LuarmorResponse {
        success: true,
        message: LuarmorMessage::Success,
        data: None,
    };
    assert_eq!(
        envelope.into_result(200, "raw"),
        Err(ApiError::Response { status: 200, body: "raw".to_string() }),
    );
}

#[test]
fn into_result_turns_a_refusal_into_a_client_error_even_with_data() {
    let envelope = LuarmorResponse {
        success: false,
        message: LuarmorMessage::KeyNotFound,
        data: Some(7u32),
    };
    assert_eq!(
        envelope.into_result(200, "raw"),
        Err(ApiError::Client { message: LuarmorMessage::KeyNotFound }),
    );
}
