use base64::engine::general_purpose::{URL_SAFE, URL_SAFE_NO_PAD};
use base64::Engine;
use ed25519_dalek::{Signer, SigningKey};
use fiat_verifier::auth::{
    judge_signature, parse_canonical_strict, verify_signature, Headers, TrustedKey,
    SIGNATURE_HEADER,
};
use fiat_verifier::error::ApiError;
use fiat_verifier::wire::{InvoiceRequest, StatusRequest};

fn keypair() -> SigningKey {
    SigningKey::from_bytes(&[9_u8; 32])
}

fn trusted(key: &SigningKey) -> TrustedKey {
    TrustedKey::from_bytes(key.verifying_key().to_bytes()).unwrap()
}

fn headers_of(values: &[&str]) -> Headers {
    Headers {
        entries: values
            .iter()
            .map(|value| (SIGNATURE_HEADER.to_owned(), value.as_bytes().to_vec()))
            .collect(),
    }
}

fn signed_headers(key: &SigningKey, body: &[u8]) -> Headers {
    headers_of(&[&URL_SAFE_NO_PAD.encode(key.sign(body).to_bytes())])
}

#[test]
fn accepts_valid_signature_over_raw_body() {
    let key = keypair();
    let body = br#"{"bundle_id":"000G40R40M30E209185GR38E1W","creator":"pubkyabc"}"#;
    let headers = signed_headers(&key, body);
    assert!(verify_signature(&trusted(&key), &headers, body).is_ok());
}

#[test]
fn rejects_missing_signature() {
    let key = keypair();
    assert_eq!(
        verify_signature(&trusted(&key), &headers_of(&[]), b"{}"),
        Err(ApiError::InvalidSignature)
    );
}

#[test]
fn rejects_duplicate_signature_headers() {
    let key = keypair();
    let body = b"{}";
    let encoded = URL_SAFE_NO_PAD.encode(key.sign(body).to_bytes());
    let headers = headers_of(&[&encoded, &encoded]);
    assert_eq!(
        verify_signature(&trusted(&key), &headers, body),
        Err(ApiError::InvalidSignature)
    );
}

#[test]
fn rejects_signature_from_untrusted_key() {
    let key = keypair();
    let other = SigningKey::from_bytes(&[7_u8; 32]);
    let body = b"{}";
    let headers = signed_headers(&other, body);
    assert_eq!(
        verify_signature(&trusted(&key), &headers, body),
        Err(ApiError::InvalidSignature)
    );
}

#[test]
fn rejects_tampered_body() {
    let key = keypair();
    let headers = signed_headers(&key, b"{\"a\":1}");
    assert_eq!(
        verify_signature(&trusted(&key), &headers, b"{\"a\":2}"),
        Err(ApiError::InvalidSignature)
    );
}

#[test]
fn rejects_padded_base64_signature_encoding() {
    let key = keypair();
    let body = b"{}";
    let padded = URL_SAFE.encode(key.sign(body).to_bytes());
    assert_eq!(
        verify_signature(&trusted(&key), &headers_of(&[&padded]), body),
        Err(ApiError::InvalidSignature)
    );
}

#[test]
fn rejects_signature_of_another_length_or_alphabet() {
    let key = keypair();
    for value in ["", "AAAA", "not base64!", "\u{e9}"] {
        assert_eq!(
            verify_signature(&trusted(&key), &headers_of(&[value]), b"{}"),
            Err(ApiError::InvalidSignature)
        );
    }
}

#[test]
fn only_a_respelled_and_verified_signature_is_accepted() {
    let decoded = Some(vec![0_u8; 64]);
    assert_eq!(judge_signature("x", &decoded, "x", true), Ok(()));
    let refused = Err(ApiError::InvalidSignature);
    assert_eq!(judge_signature("x", &decoded, "y", true), refused);
    assert_eq!(judge_signature("x", &decoded, "x", false), refused);
    assert_eq!(judge_signature("x", &Some(vec![0_u8; 63]), "x", true), refused);
    assert_eq!(judge_signature("x", &None, "x", true), refused);
}

#[test]
fn refuses_bytes_that_are_no_key() {
    let mut bytes = [0_u8; 32];
    bytes[0] = 2;
    assert!(TrustedKey::from_bytes(bytes).is_err());
}

#[test]
fn parses_strict_canonical_body() {
    let body = br#"{"bundle_id":"B","creator":"C"}"#;
    let parsed: StatusRequest = parse_canonical_strict(body).unwrap();
    assert_eq!(
        parsed,
        StatusRequest {
            bundle_id: "B".into(),
            creator: "C".into()
        }
    );
}

#[test]
fn rejects_non_canonical_key_order() {
    let body = br#"{"creator":"C","bundle_id":"B"}"#;
    assert!(parse_canonical_strict::<StatusRequest>(body).is_err());
}

#[test]
fn rejects_non_canonical_whitespace() {
    let body = br#"{"bundle_id": "B", "creator": "C"}"#;
    assert!(parse_canonical_strict::<StatusRequest>(body).is_err());
}

#[test]
fn rejects_unknown_fields() {
    let body = br#"{"bundle_id":"B","creator":"C","extra":true}"#;
    assert!(parse_canonical_strict::<StatusRequest>(body).is_err());
}

#[test]
fn rejects_missing_fields_other_types_and_garbage() {
    for body in [
        r#"{"bundle_id":"B"}"#,
        r#"{"bundle_id":"B","creator":7}"#,
        r#""B""#,
        "not json",
        "",
    ] {
        assert_eq!(
            parse_canonical_strict::<StatusRequest>(body.as_bytes()),
            Err(ApiError::InvalidRequest)
        );
    }
}

#[test]
fn reads_fields_in_order_from_a_list() {
    let parsed: StatusRequest = parse_canonical_strict(br#"["C","B"]"#).unwrap();
    assert_eq!(parsed.creator, "C");
    assert_eq!(parsed.bundle_id, "B");
    assert!(parse_canonical_strict::<StatusRequest>(br#"["C"]"#).is_err());
}

#[test]
fn reads_an_invoice_request() {
    let body = br#"{"bundle_id":"B","lock_resource":"c/pub/x","reader":"r"}"#;
    let parsed: InvoiceRequest = parse_canonical_strict(body).unwrap();
    assert_eq!(parsed.bundle_id, "B");
    assert_eq!(parsed.lock_resource, "c/pub/x");
    assert_eq!(parsed.reader, "r");
}

#[test]
fn header_text_is_the_first_visible_value() {
    let headers = Headers {
        entries: vec![
            ("a".to_owned(), b"one".to_vec()),
            ("b".to_owned(), vec![0xff]),
            ("a".to_owned(), b"two".to_vec()),
        ],
    };
    assert_eq!(headers.text("a").as_deref(), Some("one"));
    assert_eq!(headers.text("b"), None);
    assert_eq!(headers.text("c"), None);
    assert_eq!(headers.only_text("a"), None);
}
