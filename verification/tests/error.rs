use floopfloop::error::default_code_for_status;
use floopfloop::transport::{
    decode_failure, interpret_response, parse_error_envelope, read_failure, send_failure,
    unwrap_data_envelope,
};
use floopfloop::{FloopError, FloopErrorCode};
use std::time::Duration;

#[test]
fn error_code_roundtrip() {
    for wire in ["RATE_LIMITED", "NETWORK_ERROR", "UNKNOWN", "WEIRD_NEW_CODE"] {
        let parsed = FloopErrorCode::from_wire(wire);
        assert_eq!(parsed.as_str(), wire);
    }
}

#[test]
fn error_display_format() {
    let err = FloopError::new(FloopErrorCode::RateLimited, 429, "slow".to_string())
        .with_request_id("r1".to_string());
    assert_eq!(
        err.to_string(),
        "floop: [RATE_LIMITED 429] slow (request r1)"
    );

    let err = FloopError::new(FloopErrorCode::NetworkError, 0, "boom".to_string());
    assert_eq!(err.to_string(), "floop: [NETWORK_ERROR] boom");
}

#[test]
fn from_wire_maps_every_named_code() {
    let named = [
        ("UNAUTHORIZED", FloopErrorCode::Unauthorized),
        ("FORBIDDEN", FloopErrorCode::Forbidden),
        ("VALIDATION_ERROR", FloopErrorCode::ValidationError),
        ("RATE_LIMITED", FloopErrorCode::RateLimited),
        ("NOT_FOUND", FloopErrorCode::NotFound),
        ("CONFLICT", FloopErrorCode::Conflict),
        ("SERVICE_UNAVAILABLE", FloopErrorCode::ServiceUnavailable),
        ("SERVER_ERROR", FloopErrorCode::ServerError),
        ("NETWORK_ERROR", FloopErrorCode::NetworkError),
        ("TIMEOUT", FloopErrorCode::Timeout),
        ("BUILD_FAILED", FloopErrorCode::BuildFailed),
        ("BUILD_CANCELLED", FloopErrorCode::BuildCancelled),
        ("UNKNOWN", FloopErrorCode::Unknown),
    ];
    for (wire, code) in named {
        assert_eq!(FloopErrorCode::from_wire(wire), code);
        assert_eq!(code.as_str(), wire);
    }
    assert_eq!(
        FloopErrorCode::from_wire("rate_limited"),
        FloopErrorCode::Other("rate_limited".to_string())
    );
}

#[test]
fn canonical_code_survives_a_round_trip() {
    let code = FloopErrorCode::Other("TEAPOT_MODE".to_string());
    assert_eq!(FloopErrorCode::from_wire(code.as_str()), code);
    let code = FloopErrorCode::BuildCancelled;
    assert_eq!(FloopErrorCode::from_wire(code.as_str()), code);
}

#[test]
fn display_without_status_keeps_request_id() {
    let err = FloopError::new(FloopErrorCode::Timeout, 0, "late".to_string())
        .with_request_id("abc".to_string());
    assert_eq!(err.to_string(), "floop: [TIMEOUT] late (request abc)");
    let err = FloopError::new(FloopErrorCode::Other("X".to_string()), 503, "".to_string());
    assert_eq!(err.to_string(), "floop: [X 503] ");
}

#[test]
fn builder_setters_keep_the_rest() {
    let err = FloopError::new(FloopErrorCode::Conflict, 409, "dup".to_string())
        .with_retry_after(Duration::from_secs(3))
        .with_request_id("q".to_string());
    assert_eq!(err.code, FloopErrorCode::Conflict);
    assert_eq!(err.status, 409);
    assert_eq!(err.message, "dup");
    assert_eq!(err.request_id.as_deref(), Some("q"));
    assert_eq!(err.retry_after, Some(Duration::from_secs(3)));
}

#[test]
fn status_defaults() {
    assert_eq!(default_code_for_status(401), FloopErrorCode::Unauthorized);
    assert_eq!(default_code_for_status(403), FloopErrorCode::Forbidden);
    assert_eq!(default_code_for_status(404), FloopErrorCode::NotFound);
    assert_eq!(default_code_for_status(409), FloopErrorCode::Conflict);
    assert_eq!(default_code_for_status(422), FloopErrorCode::ValidationError);
    assert_eq!(default_code_for_status(429), FloopErrorCode::RateLimited);
    assert_eq!(default_code_for_status(503), FloopErrorCode::ServiceUnavailable);
    assert_eq!(default_code_for_status(500), FloopErrorCode::ServerError);
    assert_eq!(default_code_for_status(599), FloopErrorCode::ServerError);
    assert_eq!(default_code_for_status(418), FloopErrorCode::Unknown);
    assert_eq!(default_code_for_status(400), FloopErrorCode::Unknown);
}

#[test]
fn error_envelope_becomes_typed_error() {
    let err = interpret_response(
        404,
        r#"{"error":{"code":"NOT_FOUND","message":"no such user"}}"#.to_string(),
        Some("req_1".to_string()),
        None,
    )
    .expect_err("should fail");
    assert_eq!(err.code, FloopErrorCode::NotFound);
    assert_eq!(err.status, 404);
    assert_eq!(err.message, "no such user");
    assert_eq!(err.request_id.as_deref(), Some("req_1"));
}

#[test]
fn error_carries_the_retry_hint() {
    let err = interpret_response(
        429,
        r#"{"error":{"code":"RATE_LIMITED","message":"slow"}}"#.to_string(),
        None,
        Some(Duration::from_secs(5)),
    )
    .expect_err("should fail");
    assert_eq!(err.code, FloopErrorCode::RateLimited);
    assert_eq!(err.retry_after, Some(Duration::from_secs(5)));
}

#[test]
fn non_json_5xx_falls_back_to_server_error() {
    let err = interpret_response(500, "upstream crashed".to_string(), None, None)
        .expect_err("should fail");
    assert_eq!(err.code, FloopErrorCode::ServerError);
    assert_eq!(err.status, 500);
    assert_eq!(err.message, "request failed (500)");
}

#[test]
fn unknown_server_code_roundtrips() {
    let err = interpret_response(
        418,
        r#"{"error":{"code":"TEAPOT_MODE","message":"short and stout"}}"#.to_string(),
        None,
        None,
    )
    .expect_err("should fail");
    assert_eq!(err.code.as_str(), "TEAPOT_MODE");
}

#[test]
fn envelope_with_partial_error_object() {
    let (code, message) = parse_error_envelope(r#"{"error":{"message":"nope"}}"#, 403);
    assert_eq!(code, FloopErrorCode::Forbidden);
    assert_eq!(message, "nope");
    let (code, message) = parse_error_envelope(r#"{"error":{"code":"CONFLICT"}}"#, 400);
    assert_eq!(code, FloopErrorCode::Conflict);
    assert_eq!(message, "request failed (400)");
    let (code, message) = parse_error_envelope(r#"{"error":"flat string"}"#, 422);
    assert_eq!(code, FloopErrorCode::ValidationError);
    assert_eq!(message, "request failed (422)");
    let (code, _) = parse_error_envelope(r#"{"error":{"code":7}}"#, 401);
    assert_eq!(code, FloopErrorCode::Unauthorized);
}

#[test]
fn data_envelope_is_unwrapped() {
    let body = interpret_response(
        200,
        r#"{"data":{"id":"u_1","email":"p@x","name":"Pim","plan":"business"}}"#.to_string(),
        None,
        None,
    )
    .expect("ok");
    let v: serde_json::Value = serde_json::from_str(&body).unwrap();
    assert_eq!(v["id"], "u_1");
    assert_eq!(v["plan"], "business");
    assert_eq!(
        unwrap_data_envelope(r#"{"data":[1,2]}"#).as_deref(),
        Some("[1,2]")
    );
    assert_eq!(unwrap_data_envelope(r#"[{"data":1}]"#), None);
    assert_eq!(unwrap_data_envelope("not json"), None);
}

#[test]
fn body_without_envelope_passes_through() {
    let body = interpret_response(201, r#"{"slug":"x"}"#.to_string(), None, None).expect("ok");
    assert_eq!(body, r#"{"slug":"x"}"#);
    let body = interpret_response(204, String::new(), None, None).expect("ok");
    assert_eq!(body, "");
}

#[test]
fn transport_failures() {
    let e = send_failure(true, "https://x", "ignored");
    assert_eq!(e.code, FloopErrorCode::Timeout);
    assert_eq!(e.message, "request timed out");
    let e = send_failure(false, "https://x", "dns");
    assert_eq!(e.code, FloopErrorCode::NetworkError);
    assert_eq!(e.message, "could not reach https://x (dns)");
    assert_eq!(e.status, 0);
    let e = read_failure(502, "eof");
    assert_eq!(e.code, FloopErrorCode::NetworkError);
    assert_eq!(e.status, 502);
    assert_eq!(e.message, "failed to read response: eof");
    let e = decode_failure("bad");
    assert_eq!(e.code, FloopErrorCode::Unknown);
    assert_eq!(e.message, "failed to decode response: bad");
}
