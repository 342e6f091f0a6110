use graphann::error::{classify_error, trimmed_body, ApiError, ClientError, ErrorCode};
use graphann::time::TimeSpan;

fn api(code: &str, message: &str) -> Option<ApiError> {
    Some(ApiError { code: code.to_string(), message: message.to_string(), details: None })
}

#[test]
fn errors_map_status_to_variants() {
    let e = classify_error(404, None, api("not_found", "Tenant not found"), b"{}").unwrap();
    assert!(matches!(e, ClientError::NotFound(ref m) if m == "Tenant not found"));
    let e = classify_error(401, None, None, b"who?").unwrap();
    assert!(matches!(e, ClientError::Auth(ref m) if m == "who?"));
    let e = classify_error(403, None, None, b"no").unwrap();
    assert!(matches!(e, ClientError::Authorization(_)));
    let e = classify_error(413, None, api("payload_too_large", "Request body too large"), b"").unwrap();
    assert!(matches!(e, ClientError::PayloadTooLarge(ref m) if m == "Request body too large"));
}

#[test]
fn rebuild_graph_conflict_maps_to_typed_error() {
    let e = classify_error(
        409,
        None,
        api("conflict", "compaction already in progress for this index"),
        b"",
    )
    .unwrap();
    assert!(matches!(e, ClientError::Conflict(_)));
    assert!(!e.is_retryable());
}

#[test]
fn rate_limit_honours_retry_after() {
    let e = classify_error(429, Some("0"), api("rate_limited", "slow down"), b"").unwrap();
    match &e {
        ClientError::RateLimit { retry_after, message } => {
            assert_eq!(*retry_after, Some(TimeSpan::zero()));
            assert_eq!(message.as_deref(), Some("slow down"));
        }
        other => panic!("unexpected {other:?}"),
    }
    assert!(e.is_retryable());
    assert_eq!(e.retry_after(), Some(TimeSpan::zero()));
}

#[test]
fn service_unavailable_keeps_code_and_delay() {
    let e = classify_error(503, Some(" 12 "), api("index_not_ready", "warming"), b"").unwrap();
    match &e {
        ClientError::ServiceUnavailable { code, message, retry_after } => {
            assert_eq!(code.as_deref(), Some("index_not_ready"));
            assert_eq!(message, "warming");
            assert_eq!(*retry_after, Some(TimeSpan::from_secs(12)));
        }
        other => panic!("unexpected {other:?}"),
    }
    assert!(e.is_retryable());
    let e = classify_error(503, Some("soon"), None, b"down").unwrap();
    assert_eq!(e.retry_after(), None);
}

#[test]
fn other_statuses_become_server_errors() {
    let e = classify_error(501, None, api("not_implemented", "nope"), b"raw body").unwrap();
    match &e {
        ClientError::Server { status, code, body } => {
            assert_eq!(*status, 501);
            assert_eq!(code.as_deref(), Some("not_implemented"));
            assert_eq!(body, "raw body");
        }
        other => panic!("unexpected {other:?}"),
    }
    assert!(!e.is_retryable());
    let e = classify_error(400, None, None, &[0xff, b'a']).unwrap();
    assert!(matches!(e, ClientError::Server { ref body, .. } if body == "\u{FFFD}a"));
}

#[test]
fn long_bodies_are_truncated() {
    let body = vec![b'x'; 5000];
    let e = classify_error(500, None, None, &body).unwrap();
    match e {
        ClientError::Server { body, .. } => {
            assert_eq!(body.len(), 4096 + "...(truncated)".len());
            assert!(body.ends_with("...(truncated)"));
        }
        other => panic!("unexpected {other:?}"),
    }
    assert_eq!(trimmed_body(&"y".repeat(4096)), "y".repeat(4096));
}

#[test]
fn bodies_that_cannot_be_cut_are_reported() {
    // 4095 ASCII bytes then a two-byte character straddling byte 4096.
    let mut text = "a".repeat(4095);
    text.push('é');
    text.push_str("tail");
    assert!(classify_error(500, None, None, text.as_bytes()).is_none());
    assert!(classify_error(404, None, None, text.as_bytes()).is_none());
    // An envelope supplies the message, so the body is never cut.
    let e = classify_error(404, None, api("not_found", "Tenant not found"), text.as_bytes());
    assert!(matches!(e, Some(ClientError::NotFound(ref m)) if m == "Tenant not found"));
    let e = classify_error(429, Some("2"), api("rate_limited", "slow"), text.as_bytes()).unwrap();
    assert_eq!(e.retry_after(), Some(TimeSpan::from_secs(2)));
    // A `Server` error keeps the body, envelope or not.
    assert!(classify_error(500, None, api("internal", "boom"), text.as_bytes()).is_none());
}

#[test]
fn retryability() {
    assert!(ClientError::RateLimit { retry_after: None, message: None }.is_retryable());
    assert!(!ClientError::Other("x".into()).is_retryable());
    assert!(!ClientError::Builder("x".into()).is_retryable());
    assert_eq!(ClientError::NotFound("x".into()).retry_after(), None);
}

#[test]
fn error_codes_parse() {
    assert_eq!(ErrorCode::parse("internal_error"), ErrorCode::Internal);
    assert_eq!(ErrorCode::parse("internal"), ErrorCode::Internal);
    assert_eq!(ErrorCode::parse("bad_request"), ErrorCode::BadRequest);
    assert_eq!(ErrorCode::parse("unauthorized"), ErrorCode::Unauthorized);
    assert_eq!(ErrorCode::parse("forbidden"), ErrorCode::Forbidden);
    assert_eq!(ErrorCode::parse("conflict"), ErrorCode::Conflict);
    assert_eq!(ErrorCode::parse("quota_exceeded"), ErrorCode::QuotaExceeded);
    assert_eq!(ErrorCode::parse("rate_limited"), ErrorCode::RateLimited);
    assert_eq!(ErrorCode::parse("validation"), ErrorCode::Validation);
    assert_eq!(ErrorCode::parse("validation_error"), ErrorCode::Validation);
    assert_eq!(ErrorCode::parse("index_not_ready"), ErrorCode::IndexNotReady);
    assert_eq!(ErrorCode::parse("index_building"), ErrorCode::IndexBuilding);
    assert_eq!(ErrorCode::parse("service_unavailable"), ErrorCode::ServiceUnavailable);
    assert_eq!(ErrorCode::parse("payload_too_large"), ErrorCode::PayloadTooLarge);
    assert_eq!(ErrorCode::parse("not_implemented"), ErrorCode::NotImplemented);
    assert_eq!(ErrorCode::parse("NOT_FOUND"), ErrorCode::Other);
    assert_eq!(ErrorCode::parse(""), ErrorCode::Other);
}
