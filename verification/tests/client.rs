use llmprism::client::{
    merge_provider_options, merge_provider_options_into_form, parse_error_body, parse_u64,
    ErrorMapper,
};
use llmprism::error::Error;
use llmprism::json::{json_to_text, parse_json_text, JsonValue};

#[test]
fn merge_provider_options_overrides_and_adds_fields() {
    let wire_request = parse_json_text(r#"{"model": "gpt-4o-mini", "temperature": 0.2}"#).unwrap();
    let provider_options = parse_json_text(r#"{"temperature": 0.9, "seed": 42}"#).unwrap();

    let body = merge_provider_options(wire_request, &provider_options);

    let model = body.get_field("model").and_then(|v| v.as_text()).cloned();
    assert_eq!(model.as_deref(), Some("gpt-4o-mini"));
    assert_eq!(json_to_text(body.get_field("temperature").unwrap()), "0.9");
    assert_eq!(json_to_text(body.get_field("seed").unwrap()), "42");
}

#[test]
fn merge_provider_options_is_a_no_op_for_the_default_null_value() {
    let wire_request = parse_json_text(r#"{"model": "gpt-4o-mini", "temperature": 0.2}"#).unwrap();
    let expected = json_to_text(&wire_request);

    let body = merge_provider_options(wire_request, &JsonValue::Null);

    assert_eq!(json_to_text(&body), expected);
}

#[test]
fn form_options_send_strings_as_they_are_and_the_rest_as_json() {
    let options = parse_json_text(r#"{"language": "fr", "speakers": 2, "tags": ["a"]}"#).unwrap();

    let fields = merge_provider_options_into_form(&options);

    assert!(fields.contains(&("language".to_string(), "fr".to_string())));
    assert!(fields.contains(&("speakers".to_string(), "2".to_string())));
    assert!(fields.contains(&("tags".to_string(), r#"["a"]"#.to_string())));
    assert!(merge_provider_options_into_form(&JsonValue::Null).is_empty());
}

#[test]
fn u64_parsing_follows_the_standard_library() {
    assert_eq!(parse_u64("0"), Some(0));
    assert_eq!(parse_u64("30"), Some(30));
    assert_eq!(parse_u64("+7"), Some(7));
    assert_eq!(parse_u64("18446744073709551615"), Some(u64::MAX));
    assert_eq!(parse_u64("18446744073709551616"), None);
    assert_eq!(parse_u64(""), None);
    assert_eq!(parse_u64("+"), None);
    assert_eq!(parse_u64("-1"), None);
    assert_eq!(parse_u64("1.5"), None);
    assert_eq!(parse_u64(" 1"), None);
    for s in ["1", "12", "0099", "+0", "abc", "9".repeat(25).as_str()] {
        assert_eq!(parse_u64(s), s.parse::<u64>().ok(), "{s}");
    }
}

#[test]
fn error_bodies_give_their_message_and_type() {
    let (kind, message) = parse_error_body(r#"{"error": {"message": "bad key", "type": "auth"}}"#);
    assert_eq!(kind.as_deref(), Some("auth"));
    assert_eq!(message, "bad key");

    let (kind, message) = parse_error_body("upstream timeout");
    assert_eq!(kind, None);
    assert_eq!(message, "upstream timeout");

    let (kind, message) = parse_error_body(r#"{"detail": "x"}"#);
    assert_eq!(kind, None);
    assert_eq!(message, r#"{"detail": "x"}"#);
}

fn headers(pairs: &[(&str, &str)]) -> Vec<(String, Option<String>)> {
    pairs.iter().map(|(k, v)| (k.to_string(), Some(v.to_string()))).collect()
}

#[test]
fn a_429_is_rate_limited_with_retry_after_and_limits() {
    let mapper = ErrorMapper { provider: "openai" };
    let h = headers(&[
        ("retry-after", "20"),
        ("x-ratelimit-limit-requests", "500"),
        ("x-ratelimit-remaining-requests", "0"),
        ("x-ratelimit-reset-requests", "1s"),
    ]);

    let err = mapper.map_error_response(429, &h, "{}");

    match err {
        Error::RateLimited { provider, retry_after, limits } => {
            assert_eq!(provider, "openai");
            assert_eq!(retry_after, Some(20));
            assert_eq!(limits.len(), 1);
            assert_eq!(limits[0].name, "requests");
            assert_eq!(limits[0].limit, 500);
            assert_eq!(limits[0].remaining, 0);
            assert_eq!(limits[0].reset_at.as_deref(), Some("1s"));
        }
        other => panic!("unexpected {other:?}"),
    }
}

#[test]
fn other_statuses_map_to_their_errors() {
    let mapper = ErrorMapper { provider: "anthropic" };
    let body = r#"{"error": {"message": "too big", "type": "request_too_large"}}"#;

    assert!(matches!(mapper.map_error_response(413, &vec![], body),
        Error::RequestTooLarge { ref details, .. } if details == "too big"));
    assert!(matches!(mapper.map_error_response(529, &vec![], body), Error::Overloaded { .. }));
    assert!(matches!(mapper.map_error_response(400, &vec![], body),
        Error::Provider { status: 400, ref kind, ref message, .. }
            if kind.as_deref() == Some("request_too_large") && message == "too big"));
    let limits = match mapper.map_error_response(429, &headers(&[("retry-after", "soon")]), "") {
        Error::RateLimited { retry_after, limits, .. } => { assert_eq!(retry_after, None); limits }
        other => panic!("unexpected {other:?}"),
    };
    assert!(limits.is_empty());
}
