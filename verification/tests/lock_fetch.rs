use fiat_verifier::json::Json;
use fiat_verifier::lock_fetch::{
    append_chunk, extract_criterion, fetch_failure, parse_criterion, LockCriterion, LockFetchError,
};

fn sample_lock(asset: &str, amount: &str) -> String {
    format!(
        r#"{{
              "version": 1,
              "creator": "pubkycreator",
              "primary_resource": {{"path": "content/premium.txt"}},
              "criteria": [{{
                "criterion_id": "criterion-1",
                "verifier_type": "paykit-payment",
                "params": {{"recipient_pubky": "pubkycreator", "amount": "{amount}", "asset": "{asset}"}}
              }}],
              "lock_logic": {{"type": "all", "criteria": ["criterion-1"]}},
              "access_policy": {{"requested_credential_ttl_seconds": 900}},
              "lock_server": {{"override": "pubkylockserver"}},
              "created_at": "2026-08-21T00:00:00Z"
            }}"#
    )
}

#[test]
fn parses_btc_criterion() {
    let criterion = parse_criterion(sample_lock("BTC", "15000").as_bytes()).unwrap();
    assert_eq!(
        criterion,
        LockCriterion {
            asset: "BTC".into(),
            amount: "15000".into(),
            recipient_pubky: "pubkycreator".into()
        }
    );
}

#[test]
fn parses_usd_criterion() {
    let criterion = parse_criterion(sample_lock("USD", "1999").as_bytes()).unwrap();
    assert_eq!(criterion.asset, "USD");
    assert_eq!(criterion.amount, "1999");
}

#[test]
fn rejects_lock_without_paykit_criterion() {
    let doc = r#"{"criteria":[{"verifier_type":"dev-static","params":{}}]}"#;
    assert_eq!(
        parse_criterion(doc.as_bytes()),
        Err(LockFetchError::Invalid)
    );
}

#[test]
fn rejects_non_integer_amount() {
    assert_eq!(
        parse_criterion(sample_lock("USD", "19.99").as_bytes()),
        Err(LockFetchError::Invalid)
    );
    assert_eq!(
        parse_criterion(sample_lock("USD", "").as_bytes()),
        Err(LockFetchError::Invalid)
    );
}

#[test]
fn rejects_missing_fields_and_garbage() {
    assert_eq!(parse_criterion(b"not json"), Err(LockFetchError::Invalid));
    assert_eq!(
        parse_criterion(br#"{"criteria":[]}"#),
        Err(LockFetchError::Invalid)
    );
}

#[test]
fn takes_the_first_payment_criterion() {
    let criterion = |asset: &str| {
        Json::Object(vec![
            (
                "verifier_type".into(),
                Json::Text("paykit-payment".into()),
            ),
            (
                "params".into(),
                Json::Object(vec![
                    ("asset".into(), Json::Text(asset.into())),
                    ("amount".into(), Json::Text("7".into())),
                    ("recipient_pubky".into(), Json::Text("r".into())),
                ]),
            ),
        ])
    };
    let lock = Json::Object(vec![(
        "criteria".into(),
        Json::List(vec![Json::Null, criterion("USD"), criterion("EUR")]),
    )]);
    assert_eq!(extract_criterion(&lock).unwrap().asset, "USD");
    let empty = Json::Object(vec![("criteria".into(), Json::List(vec![criterion("")]))]);
    assert_eq!(extract_criterion(&empty), Err(LockFetchError::Invalid));
}

#[test]
fn failed_reads_are_told_apart() {
    assert_eq!(fetch_failure(Some(404)), LockFetchError::NotFound);
    assert_eq!(fetch_failure(Some(500)), LockFetchError::Unavailable);
    assert_eq!(fetch_failure(None), LockFetchError::Unavailable);
}

#[test]
fn documents_are_capped() {
    let mut document = Vec::new();
    assert_eq!(append_chunk(&mut document, b"abc", 5), Ok(()));
    assert_eq!(append_chunk(&mut document, b"de", 5), Ok(()));
    assert_eq!(
        append_chunk(&mut document, b"f", 5),
        Err(LockFetchError::Invalid)
    );
    assert_eq!(document, b"abcde");
}

#[test]
fn rejects_an_amount_of_zero() {
    for amount in ["0", "000"] {
        for asset in ["USD", "BTC"] {
            assert_eq!(
                parse_criterion(sample_lock(asset, amount).as_bytes()),
                Err(LockFetchError::Invalid)
            );
        }
    }
    let padded = parse_criterion(sample_lock("USD", "010").as_bytes()).unwrap();
    assert_eq!(padded.amount, "010");
}
