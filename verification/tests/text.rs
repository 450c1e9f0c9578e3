use fiat_verifier::error::ApiError;
use fiat_verifier::http::{is_reversal_capture_status, normalized_z32, reversal_capture_id};
use fiat_verifier::json::{accept_canonical, parse_canonical, parse_json, raw_event, Json};
use fiat_verifier::proxy::{mirror, Answer, Mirrored, PaykitProxy};
use fiat_verifier::text;
use fiat_verifier::web_url::WebUrl;

#[test]
fn trimming_matches_the_standard_library() {
    for value in [
        "", " ", "a", " a b ", "\u{a0}x\u{3000}", "\u{200b}x", "\t\r\nq\u{85}", "\u{2028}",
    ] {
        assert_eq!(text::trimmed(value), value.trim());
    }
}

#[test]
fn splitting_matches_the_standard_library() {
    for value in ["", ",", "a,b", ",a,,b,", "abc"] {
        let parts: Vec<&str> = value.split(',').collect();
        assert_eq!(text::split_at_each(value, ','), parts);
        assert_eq!(
            text::split_at_first(value, ','),
            value
                .split_once(',')
                .map(|(a, b)| (a.to_owned(), b.to_owned()))
        );
    }
    for value in ["", "/captures/", "x/captures/y", "a/captures/b/captures/c"] {
        assert_eq!(
            text::tail_after_last(value, "/captures/"),
            value
                .rsplit_once("/captures/")
                .map(|(_, tail)| tail.to_owned())
        );
    }
}

#[test]
fn searching_and_case_match_the_standard_library() {
    for (value, needle) in [("", ""), ("abc", "bc"), ("abc", "x"), ("ab", "abc"), ("aab", "ab")] {
        assert_eq!(text::contains(value, needle), value.contains(needle));
        assert_eq!(text::starts_with(value, needle), value.starts_with(needle));
    }
    assert_eq!(text::lowered("AbZ\u{c9}9"), "AbZ\u{c9}9".to_ascii_lowercase());
    assert!(text::same_text_any_case("uSd", "USD"));
    assert!(!text::same_text_any_case("usd", "eur"));
}

#[test]
fn app_keys_are_compared_without_prefix() {
    assert_eq!(normalized_z32("pubkyabc"), "abc");
    assert_eq!(normalized_z32("abc"), "abc");
    assert_eq!(normalized_z32("pubkypubky"), "pubky");
}

#[test]
fn reversal_statuses() {
    for status in ["REFUNDED", "PARTIALLY_REFUNDED", "REVERSED", "DECLINED", "FAILED"] {
        assert!(is_reversal_capture_status(&Some(status.to_owned())));
    }
    for status in ["COMPLETED", "PENDING", "refunded", ""] {
        assert!(!is_reversal_capture_status(&Some(status.to_owned())));
    }
    assert!(!is_reversal_capture_status(&None));
}

#[test]
fn reversed_capture_comes_from_the_up_link_or_the_id() {
    let id = |document: &str| {
        reversal_capture_id(&parse_json(document.as_bytes()).unwrap())
    };
    assert_eq!(id(r#"{"id":"own"}"#).as_deref(), Some("own"));
    assert_eq!(
        id(r#"{"id":"own","links":[{"rel":"self","href":"/captures/no"},
              {"rel":"up","href":"/captures/"},{"rel":"up","href":"https://x/captures/cap"}]}"#)
        .as_deref(),
        Some("cap")
    );
    assert_eq!(id(r#"{"links":{}}"#), None);
    assert_eq!(id("[]"), None);
}

#[test]
fn documents_are_parsed_into_trees() {
    let tree = parse_json(br#"{"a":[1,"x",null,true],"b":{"c":"d"}}"#).unwrap();
    assert!(matches!(tree.get("a").unwrap().at(0), Some(Json::Number(n)) if n == "1"));
    assert_eq!(tree.get("a").unwrap().at(1).unwrap().as_text().unwrap(), "x");
    assert!(matches!(tree.get("a").unwrap().at(3), Some(Json::Bool(true))));
    assert!(tree.get("a").unwrap().at(4).is_none());
    assert_eq!(tree.get("b").unwrap().get_text("c").unwrap(), "d");
    assert!(tree.get_text("a").is_none());
    assert!(parse_json(b"{").is_none());
    assert!(parse_canonical(br#"{"a":1}"#).is_some());
    assert!(parse_canonical(br#"{"a": 1}"#).is_none());
    assert!(accept_canonical(b"x", Json::Null, &Some(b"x".to_vec())).is_some());
    assert!(accept_canonical(b"x", Json::Null, &Some(b"y".to_vec())).is_none());
    assert!(accept_canonical(b"x", Json::Null, &None).is_none());
    assert_eq!(raw_event(b" {\"b\" : 1} ").as_deref(), Some("{\"b\" : 1}"));
    assert_eq!(raw_event(b"no"), None);
    assert_eq!(raw_event(&[0xff]), None);
}

#[test]
fn calls_are_forwarded_below_the_server_path() {
    let proxy = PaykitProxy::new(WebUrl::parse("https://paykit.test/base/?q=1#f").unwrap());
    assert_eq!(
        proxy.endpoint("transactions/status"),
        "https://paykit.test/base/transactions/status"
    );
    let root = PaykitProxy::new(WebUrl::parse("http://paykit.test").unwrap());
    assert_eq!(root.endpoint("invoices"), "http://paykit.test/invoices");
}

#[test]
fn answers_are_mirrored() {
    match mirror(Some(Answer {
        status: 404,
        content_type: Some("text/plain".into()),
        body: b"no".to_vec(),
    })) {
        Mirrored::Answer {
            status,
            content_type,
            body,
        } => {
            assert_eq!(status, 404);
            assert_eq!(content_type, "text/plain");
            assert_eq!(body, b"no");
        }
        other => panic!("{other:?}"),
    }
    match mirror(None) {
        Mirrored::Fault(error) => assert_eq!(error.details().0, 503),
        other => panic!("{other:?}"),
    }
}

#[test]
fn errors_have_their_envelope() {
    for (error, status, code) in [
        (ApiError::InvalidRequest, 400, "invalid_request"),
        (ApiError::InvalidSignature, 401, "invalid_signature"),
        (ApiError::InvalidReturnOrigin, 400, "invalid_return_origin"),
        (ApiError::RateLimited, 429, "rate_limited"),
        (ApiError::NotFound, 404, "not_found"),
        (ApiError::LockNotFound, 404, "lock_not_found"),
        (ApiError::InvoiceConflict, 409, "invoice_conflict"),
        (ApiError::Unavailable, 503, "fiat_unavailable"),
    ] {
        let (found_status, found_code, message) = error.details();
        assert_eq!((found_status, found_code), (status, code));
        assert!(!message.is_empty());
    }
}
