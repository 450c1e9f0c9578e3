use fiat_verifier::wire::{parse_lock_resource, validate_id, StatusKind, TransactionStatus};

#[test]
fn splits_lock_resource_into_creator_and_path() {
    let (creator, path) = parse_lock_resource(
        "pubkytkrq8zmwb8a3m9k15csu3q17qmfgqnp9dskbrg9uq1rydpyxp7qy/pub/locks.app/abc.json",
    )
    .unwrap();
    assert_eq!(
        creator,
        "pubkytkrq8zmwb8a3m9k15csu3q17qmfgqnp9dskbrg9uq1rydpyxp7qy"
    );
    assert_eq!(path, "/pub/locks.app/abc.json");
}

#[test]
fn rejects_resources_outside_pub() {
    assert!(parse_lock_resource("pubkyabc/priv/locks.app/abc.json").is_err());
    assert!(parse_lock_resource("no-slash").is_err());
    assert!(parse_lock_resource("").is_err());
}

#[test]
fn ids_are_bounded_ascii_alphanumerics() {
    assert!(validate_id("000G40R40M30E209185GR38E1W").is_ok());
    assert!(validate_id(&"a".repeat(128)).is_ok());
    assert!(validate_id(&"a".repeat(129)).is_err());
    assert!(validate_id("").is_err());
    assert!(validate_id("a_b").is_err());
    assert!(validate_id("é").is_err());
}

#[test]
fn status_serializes_the_exact_upstream_shape() {
    let status = TransactionStatus {
        status: StatusKind::Detected,
        confirmations: 0,
        amount_matched: true,
    };
    assert_eq!(
        status.rendered(),
        r#"{"status":"detected","confirmations":0,"amount_matched":true}"#
    );
}

#[test]
fn other_statuses_are_written_alike() {
    let status = TransactionStatus {
        status: StatusKind::Confirmed,
        confirmations: u32::MAX,
        amount_matched: false,
    };
    assert_eq!(
        status.rendered(),
        r#"{"status":"confirmed","confirmations":4294967295,"amount_matched":false}"#
    );
    assert_eq!(StatusKind::Undetected.as_str(), "undetected");
}
