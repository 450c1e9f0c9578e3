use fiat_verifier::clock::Span;
use fiat_verifier::stripe::{
    client_reference, idempotency_key, judge_webhook, key_of_digest, read_signature_header,
    SignedHeader, StripeError, StripeProcessor, WebhookError,
};
use hmac::{Hmac, Mac};
use sha2::{Digest, Sha256};

fn sign(secret: &str, timestamp: i64, payload: &[u8]) -> String {
    let mut mac = Hmac::<Sha256>::new_from_slice(secret.as_bytes()).unwrap();
    mac.update(timestamp.to_string().as_bytes());
    mac.update(b".");
    mac.update(payload);
    format!(
        "t={timestamp},v1={}",
        hex::encode(mac.finalize().into_bytes())
    )
}

fn verify(header: &str, payload: &[u8], now: i64) -> Result<(), WebhookError> {
    StripeProcessor::verify_webhook("whsec_test", header, payload, now, Span::from_secs(300))
}

#[test]
fn accepts_valid_webhook_signature() {
    let payload = br#"{"id":"evt_1","type":"checkout.session.completed"}"#;
    let header = sign("whsec_test", 1_000_000, payload);
    assert!(verify(&header, payload, 1_000_010).is_ok());
}

#[test]
fn rejects_wrong_secret() {
    let payload = b"{}";
    let header = sign("whsec_other", 1_000_000, payload);
    assert_eq!(
        verify(&header, payload, 1_000_010),
        Err(WebhookError::BadSignature)
    );
}

#[test]
fn rejects_tampered_payload() {
    let header = sign("whsec_test", 1_000_000, b"{\"a\":1}");
    assert_eq!(
        verify(&header, b"{\"a\":2}", 1_000_010),
        Err(WebhookError::BadSignature)
    );
}

#[test]
fn rejects_stale_timestamp() {
    let payload = b"{}";
    let header = sign("whsec_test", 1_000_000, payload);
    assert_eq!(
        verify(&header, payload, 1_000_000 + 301),
        Err(WebhookError::StaleTimestamp)
    );
}

#[test]
fn rejects_header_without_v1() {
    assert_eq!(
        verify("t=1000000", b"{}", 1_000_000),
        Err(WebhookError::MalformedHeader)
    );
}

#[test]
fn tolerance_holds_on_both_sides() {
    let payload = b"{}";
    let header = sign("whsec_test", 1_000_000, payload);
    assert_eq!(verify(&header, payload, 1_000_300), Ok(()));
    assert_eq!(verify(&header, payload, 999_700), Ok(()));
    assert_eq!(
        verify(&header, payload, 999_699),
        Err(WebhookError::StaleTimestamp)
    );
    let far = "t=-9223372036854775808,v1=00";
    assert_eq!(
        verify(far, payload, 1_000_000),
        Err(WebhookError::StaleTimestamp)
    );
}

#[test]
fn any_of_several_signatures_suffices() {
    let payload = b"{}";
    let good = sign("whsec_test", 1_000_000, payload);
    let tag = good.split("v1=").nth(1).unwrap().to_uppercase();
    let header = format!(" v1=zz , v0=x, t=1000000 ,novalue, v1=00, v1={tag}");
    assert_eq!(verify(&header, payload, 1_000_000), Ok(()));
    // The last timestamp counts, and a bad one spoils the header.
    assert_eq!(
        verify(&format!("{header},t=1"), payload, 1_000_000),
        Err(WebhookError::StaleTimestamp)
    );
    assert_eq!(
        verify(&format!("t=x,{header}"), payload, 1_000_000),
        Err(WebhookError::MalformedHeader)
    );
    assert_eq!(
        verify("v1=00", payload, 1_000_000),
        Err(WebhookError::MalformedHeader)
    );
}

#[test]
fn header_and_verdict_are_separate() {
    let signed = read_signature_header("t=7,v1=a,v1=b").ok().unwrap();
    assert_eq!(signed.timestamp, 7);
    assert_eq!(signed.candidates, vec!["a", "b"]);
    let signed = SignedHeader {
        timestamp: 7,
        candidates: vec![],
    };
    let tolerance = Span::from_secs(0);
    assert_eq!(judge_webhook(&signed, true, 7, tolerance), Ok(()));
    assert_eq!(
        judge_webhook(&signed, false, 7, tolerance),
        Err(WebhookError::BadSignature)
    );
    assert_eq!(
        judge_webhook(&signed, true, 8, tolerance),
        Err(WebhookError::StaleTimestamp)
    );
}

#[test]
fn idempotency_key_is_stable_per_attempt() {
    let a = idempotency_key("pubkyabc", "BUNDLE", 1);
    let b = idempotency_key("pubkyabc", "BUNDLE", 1);
    let c = idempotency_key("pubkyabc", "BUNDLE", 2);
    assert_eq!(a, b);
    assert_ne!(a, c);
}

#[test]
fn idempotency_key_hashes_the_separated_fields() {
    let digest = Sha256::digest(b"pubkyabc\x1fBUNDLE\x1f-7");
    assert_eq!(
        idempotency_key("pubkyabc", "BUNDLE", -7),
        format!("fiatv1-{}", hex::encode(digest))
    );
    let key = idempotency_key("", "", i32::MIN);
    assert_eq!(key.len(), 71);
    assert!(key[7..]
        .chars()
        .all(|c| c.is_ascii_digit() || ('a'..='f').contains(&c)));
    assert_eq!(key_of_digest(&[0x0f, 0xa0]), "fiatv1-0fa0");
}

#[test]
fn references_join_with_an_underscore() {
    assert_eq!(client_reference("pubkyabc", "BUNDLE"), "pubkyabc_BUNDLE");
}

#[test]
fn error_answers_are_kept_in_part() {
    assert_eq!(StripeProcessor::parse(204, "x".into()).unwrap(), "x");
    match StripeProcessor::parse(300, "\u{e9}".repeat(2001)) {
        Err(StripeError::Api { status, body }) => {
            assert_eq!(status, 300);
            assert_eq!(body, "\u{e9}".repeat(2000));
        }
        other => panic!("{other:?}"),
    }
    match StripeProcessor::parse(199, "short".into()) {
        Err(StripeError::Api { body, .. }) => assert_eq!(body, "short"),
        other => panic!("{other:?}"),
    }
}
