use hivehook::errors::{HttpFailure, HivehookError};
use hivehook::json::Json;
use hivehook::transport::{
    bearer, build_body, classify_http_error, decode_data, extract_message_from_body, graphql_url,
    is_retryable, parse_retry_after, read_response, retry_delay, RetryDelay, RetryState,
    RetryStep, DEFAULT_MAX_RETRIES,
};

const OK_BODY: &str = r#"{"data":{"status":{"status":"healthy","version":"test"}}}"#;

fn member<'a>(members: &'a [(String, Json)], key: &str) -> Option<&'a Json> {
    members.iter().find(|(k, _)| k == key).map(|(_, v)| v)
}

fn text(j: &Json) -> Option<&str> {
    match j {
        Json::Str(s) => Some(s.as_str()),
        _ => None,
    }
}

fn status_of(data: &[(String, Json)]) -> Option<String> {
    match member(data, "status") {
        Some(Json::Object(m)) => member(m, "status").and_then(text).map(String::from),
        _ => None,
    }
}

#[test]
fn rate_limit_with_retry_after_then_success() {
    let mut state = RetryState::new(2);
    let first = read_response(429, Some("1"), r#"{"errors":[{"message":"slow down"}]}"#);
    match state.after_attempt(first) {
        RetryStep::Retry(d) => assert_eq!(d, RetryDelay::Seconds(1)),
        other => panic!("expected a retry, got {:?}", other),
    }
    let second = read_response(200, None, OK_BODY);
    match state.after_attempt(second) {
        RetryStep::Finish(Ok(data)) => assert_eq!(status_of(&data).as_deref(), Some("healthy")),
        other => panic!("expected success after retry, got {:?}", other),
    }
}

#[test]
fn rate_limit_terminal_when_retries_exhausted() {
    let body = r#"{"errors":[{"message":"slow down"}]}"#;
    let mut state = RetryState::new(1);
    match state.after_attempt(read_response(429, Some("0"), body)) {
        RetryStep::Retry(d) => assert_eq!(d, RetryDelay::Seconds(0)),
        other => panic!("expected a retry, got {:?}", other),
    }
    match state.after_attempt(read_response(429, Some("0"), body)) {
        RetryStep::Finish(Err(HivehookError::RateLimit { retry_after, message })) => {
            assert_eq!(retry_after, Some(0));
            assert!(message.contains("slow down"), "message was {message:?}");
        }
        other => panic!("expected RateLimit, got {:?}", other),
    }
}

#[test]
fn server_error_retries_then_succeeds() {
    let body = r#"{"errors":[{"message":"down"}]}"#;
    let mut state = RetryState::new(3);
    match state.after_attempt(read_response(503, None, body)) {
        RetryStep::Retry(d) => assert_eq!(d, RetryDelay::Milliseconds(100)),
        other => panic!("expected a retry, got {:?}", other),
    }
    match state.after_attempt(read_response(503, None, body)) {
        RetryStep::Retry(d) => assert_eq!(d, RetryDelay::Milliseconds(200)),
        other => panic!("expected a retry, got {:?}", other),
    }
    match state.after_attempt(read_response(200, None, OK_BODY)) {
        RetryStep::Finish(Ok(_)) => {}
        other => panic!("expected success after 2 retries: {:?}", other),
    }
    assert_eq!(state.attempt, 2);
}

#[test]
fn server_error_terminal_returns_server_error_variant() {
    let mut state = RetryState::new(0);
    let outcome = read_response(502, None, r#"{"errors":[{"message":"bad gateway"}]}"#);
    match state.after_attempt(outcome) {
        RetryStep::Finish(Err(HivehookError::ServerError { status, message })) => {
            assert_eq!(status, 502);
            assert!(message.contains("bad gateway"));
        }
        other => panic!("expected ServerError, got {:?}", other),
    }
}

#[test]
fn not_found_preserves_graphql_extensions() {
    let body = r#"{
        "errors": [{
            "message": "source not found",
            "extensions": {
                "code": "NOT_FOUND",
                "resource": "source",
                "id": "abc-123"
            }
        }]
    }"#;
    match read_response(200, None, body) {
        Err(HivehookError::NotFound { message, extensions }) => {
            assert_eq!(message, "source not found");
            let ext = extensions.expect("extensions populated");
            let Json::Object(m) = ext else { panic!("extensions are an object") };
            assert_eq!(member(&m, "code").and_then(text), Some("NOT_FOUND"));
            assert_eq!(member(&m, "resource").and_then(text), Some("source"));
            assert_eq!(member(&m, "id").and_then(text), Some("abc-123"));
        }
        other => panic!("expected NotFound, got {:?}", other),
    }
}

#[test]
fn conflict_and_validation_codes_are_recognised() {
    let conflict = r#"{"errors":[{"message":"taken","extensions":{"code":"CONFLICT"}}]}"#;
    assert!(matches!(
        decode_data(conflict),
        Err(HivehookError::Conflict { ref message, extensions: Some(_) }) if message == "taken"
    ));
    let invalid = r#"{"errors":[{"message":"bad slug","extensions":{"code":"VALIDATION"}}]}"#;
    assert!(matches!(
        decode_data(invalid),
        Err(HivehookError::Validation { ref message, .. }) if message == "bad slug"
    ));
    let other = r#"{"errors":[{"extensions":{"code":"FORBIDDEN"}}]}"#;
    assert!(matches!(
        decode_data(other),
        Err(HivehookError::Api { ref message, status_code: None }) if message == "unknown error"
    ));
}

#[test]
fn decode_data_reports_missing_data_and_bad_json() {
    assert!(matches!(
        decode_data(r#"{"data":null}"#),
        Err(HivehookError::Api { ref message, status_code: Some(500) }) if message == "empty response data"
    ));
    assert!(matches!(
        decode_data(r#"{"errors":[]}"#),
        Err(HivehookError::Api { ref message, status_code: Some(500) }) if message == "empty response data"
    ));
    assert!(matches!(decode_data("not json"), Err(HivehookError::Json(_))));
    match decode_data(r#"{"errors":[],"data":{"ok":true}}"#) {
        Ok(data) => assert!(matches!(member(&data, "ok"), Some(Json::Bool(true)))),
        other => panic!("expected data, got {:?}", other),
    }
}

#[test]
fn classify_http_error_by_status() {
    assert!(matches!(
        classify_http_error(401, None, ""),
        HivehookError::Auth(ref m) if m == "unauthorized"
    ));
    assert!(matches!(
        classify_http_error(401, None, r#"{"message":"bad key"}"#),
        HivehookError::Auth(ref m) if m == "bad key"
    ));
    assert!(matches!(
        classify_http_error(429, Some(" 7 "), "busy"),
        HivehookError::RateLimit { retry_after: Some(7), ref message } if message == "busy"
    ));
    assert!(matches!(
        classify_http_error(599, None, "x"),
        HivehookError::ServerError { status: 599, .. }
    ));
    assert!(matches!(
        classify_http_error(404, None, r#"{"errors":[{"message":"gone"}]}"#),
        HivehookError::Api { ref message, status_code: Some(404) } if message == "gone"
    ));
    assert!(matches!(
        classify_http_error(600, None, "odd"),
        HivehookError::Api { status_code: Some(600), .. }
    ));
}

#[test]
fn extract_message_prefers_first_graphql_error() {
    assert_eq!(
        extract_message_from_body(r#"{"errors":[{"message":"first"},{"message":"second"}],"message":"top"}"#),
        "first"
    );
    assert_eq!(extract_message_from_body(r#"{"message":"top"}"#), "top");
    assert_eq!(extract_message_from_body(r#"{"errors":[{"message":3}]}"#), r#"{"errors":[{"message":3}]}"#);
    assert_eq!(extract_message_from_body("plain text"), "plain text");
    assert_eq!(extract_message_from_body(""), "");
}

#[test]
fn parse_retry_after_reads_delta_seconds() {
    assert_eq!(parse_retry_after(Some("120")), Some(120));
    assert_eq!(parse_retry_after(Some("  3\t")), Some(3));
    assert_eq!(parse_retry_after(Some("+4")), Some(4));
    assert_eq!(parse_retry_after(Some("18446744073709551615")), Some(u64::MAX));
    assert_eq!(parse_retry_after(Some("18446744073709551616")), None);
    assert_eq!(parse_retry_after(Some("Wed, 21 Oct 2015 07:28:00 GMT")), None);
    assert_eq!(parse_retry_after(Some("-1")), None);
    assert_eq!(parse_retry_after(Some("")), None);
    assert_eq!(parse_retry_after(None), None);
}

#[test]
fn graphql_url_strips_trailing_slashes() {
    assert_eq!(graphql_url("https://api.example.com"), "https://api.example.com/graphql");
    assert_eq!(graphql_url("https://api.example.com/"), "https://api.example.com/graphql");
    assert_eq!(graphql_url("http://localhost:8080///"), "http://localhost:8080/graphql");
    assert_eq!(graphql_url(""), "/graphql");
}

#[test]
fn retry_policy_and_backoff() {
    let http = |t: bool, c: bool, r: bool| {
        HivehookError::Http(HttpFailure {
            message: String::from("io"),
            is_timeout: t,
            is_connect: c,
            is_request: r,
        })
    };
    assert!(is_retryable(&http(true, false, false)));
    assert!(is_retryable(&http(false, true, false)));
    assert!(is_retryable(&http(false, false, true)));
    assert!(!is_retryable(&http(false, false, false)));
    assert!(!is_retryable(&HivehookError::Auth(String::from("no"))));
    assert!(!is_retryable(&HivehookError::Api { message: String::new(), status_code: Some(400) }));
    let server = HivehookError::ServerError { status: 500, message: String::new() };
    assert!(is_retryable(&server));
    assert_eq!(retry_delay(&server, 0), RetryDelay::Milliseconds(100));
    assert_eq!(retry_delay(&server, 3), RetryDelay::Milliseconds(800));
    assert_eq!(retry_delay(&server, 5), RetryDelay::Milliseconds(3200));
    assert_eq!(retry_delay(&server, 6), RetryDelay::Milliseconds(6400));
    assert_eq!(retry_delay(&server, 40), RetryDelay::Milliseconds(6400));
    let limited = HivehookError::RateLimit { retry_after: Some(9), message: String::new() };
    assert_eq!(retry_delay(&limited, 4), RetryDelay::Seconds(9));
    let unlimited = HivehookError::RateLimit { retry_after: None, message: String::new() };
    assert_eq!(retry_delay(&unlimited, 1), RetryDelay::Milliseconds(200));
    assert_eq!(DEFAULT_MAX_RETRIES, 2);
}

#[test]
fn non_retryable_error_finishes_at_once() {
    let mut state = RetryState::new(5);
    match state.after_attempt(read_response(401, None, "")) {
        RetryStep::Finish(Err(HivehookError::Auth(m))) => assert_eq!(m, "unauthorized"),
        other => panic!("expected Auth, got {:?}", other),
    }
    assert_eq!(state.attempt, 0);
}

#[test]
fn request_body_and_authorization() {
    let body = build_body("query { x }", Some(vec![(String::from("id"), Json::Str(String::from("a")))]));
    let Json::Object(m) = body else { panic!("body is an object") };
    assert_eq!(m.len(), 2);
    assert_eq!(m[0].0, "query");
    assert_eq!(text(&m[0].1), Some("query { x }"));
    assert_eq!(m[1].0, "variables");
    let without = build_body("query { y }", None);
    let Json::Object(w) = without else { panic!("body is an object") };
    assert_eq!(w.len(), 1);
    assert_eq!(bearer("hh_test"), "Bearer hh_test");
}

#[test]
fn errors_display_kind_and_message() {
    let api = HivehookError::Api { message: String::from("boom"), status_code: None };
    assert_eq!(api.to_string(), "API error: boom");
    assert_eq!(HivehookError::Auth(String::from("no key")).to_string(), "auth error: no key");
    let server = HivehookError::ServerError { status: 502, message: String::from("bad gateway") };
    assert_eq!(server.to_string(), "server error 502: bad gateway");
    let limited = HivehookError::RateLimit { retry_after: None, message: String::from("slow") };
    assert_eq!(limited.to_string(), "rate limited: slow");
    let missing = HivehookError::NotFound { message: String::from("gone"), extensions: None };
    assert_eq!(missing.to_string(), "not found: gone");
    match decode_data("{") {
        Err(e) => assert!(e.to_string().starts_with("JSON error: ")),
        Ok(_) => panic!("bad JSON decodes"),
    }
}

#[test]
fn retries_never_exceed_allowance() {
    for max in 0u32..5 {
        let mut state = RetryState::new(max);
        let mut sends = 0u32;
        loop {
            sends += 1;
            match state.after_attempt(read_response(503, None, "busy")) {
                RetryStep::Retry(_) => continue,
                RetryStep::Finish(Err(HivehookError::ServerError { status, .. })) => {
                    assert_eq!(status, 503);
                    break;
                }
                other => panic!("unexpected step {:?}", other),
            }
        }
        assert_eq!(sends, max + 1);
        assert_eq!(state.attempt, max);
    }
}
