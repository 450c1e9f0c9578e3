use fiat_verifier::clock::Timestamp;
use fiat_verifier::memory::MemoryStore;
use fiat_verifier::store::{
    CorrelationState, InsertOutcome, NewCorrelation, SessionRecord,
};
use fiat_verifier::verification::ProcessorKind;

fn new(reader: &str) -> NewCorrelation {
    NewCorrelation {
        creator: "creator".into(),
        bundle_id: "BUNDLE".into(),
        lock_resource: "creator/pub/x".into(),
        reader: reader.into(),
        asset: "USD".into(),
        amount_minor: 1999,
    }
}

fn session(id: &str, origin: Option<&str>) -> SessionRecord {
    SessionRecord {
        processor: "stripe",
        session_id: id.into(),
        checkout_url: format!("https://pay.test/{id}"),
        checkout_expires_at: 7,
        session_attempt: 1,
        return_origin: origin.map(str::to_owned),
    }
}

fn at(unix: i64) -> Timestamp {
    Timestamp::from_unix(unix).unwrap()
}

#[test]
fn insertion_is_idempotent_and_conflicts_on_other_terms() {
    let mut store = MemoryStore::new();
    assert_eq!(store.insert_new(new("r")), InsertOutcome::Inserted);
    assert_eq!(store.insert_new(new("r")), InsertOutcome::ExactReplay);
    assert_eq!(store.insert_new(new("other")), InsertOutcome::Conflict);
    let row = store.get("creator", "BUNDLE").unwrap();
    assert_eq!(row.reader, "r");
    assert_eq!(row.state, CorrelationState::Created);
    assert!(store.get("creator", "OTHER").is_none());
}

#[test]
fn states_only_advance() {
    let mut store = MemoryStore::new();
    store.insert_new(new("r"));
    store.mark_confirmed("creator", "BUNDLE", at(1));
    assert_eq!(
        store.get("creator", "BUNDLE").unwrap().state,
        CorrelationState::Created
    );
    store.mark_paid("creator", "BUNDLE", true, Some("pi".into()), at(5));
    store.mark_paid("creator", "BUNDLE", false, Some("other".into()), at(9));
    let row = store.get("creator", "BUNDLE").unwrap();
    assert_eq!(row.state, CorrelationState::Paid);
    assert!(row.amount_matched);
    assert_eq!(row.paid_at.unwrap().unix(), 5);
    assert_eq!(
        store.find_by_payment_intent("pi").unwrap().bundle_id,
        "BUNDLE"
    );
    assert!(store.find_by_payment_intent("other").is_none());
    assert_eq!(row.confirmed_at, None);
    store.mark_confirmed("creator", "BUNDLE", at(6));
    store.mark_confirmed("creator", "BUNDLE", at(7));
    store.mark_reversed("creator", "BUNDLE");
    let row = store.get("creator", "BUNDLE").unwrap();
    assert_eq!(row.state, CorrelationState::Confirmed);
    assert_eq!(row.confirmed_at.unwrap().unix(), 6);
}

#[test]
fn reversed_is_final() {
    let mut store = MemoryStore::new();
    store.insert_new(new("r"));
    store.mark_reversed("creator", "BUNDLE");
    store.mark_paid("creator", "BUNDLE", true, None, at(5));
    store.mark_confirmed("creator", "BUNDLE", at(6));
    assert_eq!(
        store.get("creator", "BUNDLE").unwrap().state,
        CorrelationState::Reversed
    );
}

#[test]
fn sessions_respect_the_bound_origin() {
    let mut store = MemoryStore::new();
    assert!(!store.set_session("creator", "BUNDLE", session("a", None)));
    store.insert_new(new("r"));
    assert!(store.open_fiat_correlations().is_empty());
    assert!(store.set_session("creator", "BUNDLE", session("a", None)));
    assert!(store.set_session("creator", "BUNDLE", session("b", Some("https://o.test"))));
    assert!(!store.set_session("creator", "BUNDLE", session("c", None)));
    assert!(!store.set_session("creator", "BUNDLE", session("c", Some("https://p.test"))));
    assert!(store.set_session("creator", "BUNDLE", session("d", Some("https://o.test"))));
    let row = store.get("creator", "BUNDLE").unwrap();
    assert_eq!(row.session_id.as_deref(), Some("d"));
    assert_eq!(row.return_origin.as_deref(), Some("https://o.test"));
    assert_eq!(store.open_fiat_correlations().len(), 1);
}

#[test]
fn events_are_new_once() {
    let mut store = MemoryStore::new();
    assert!(store.record_webhook_event("e1", "t"));
    assert!(!store.record_webhook_event("e1", "t"));
    assert!(store.record_webhook_event("e2", "t"));
}

#[test]
fn spellings_are_read_back() {
    for state in [
        CorrelationState::Created,
        CorrelationState::Paid,
        CorrelationState::Confirmed,
        CorrelationState::Reversed,
    ] {
        assert_eq!(CorrelationState::parse(state.as_str()), Some(state));
    }
    assert_eq!(CorrelationState::parse("Paid"), None);
    for kind in [ProcessorKind::Stripe, ProcessorKind::Paypal] {
        assert_eq!(ProcessorKind::parse(kind.as_str()), Some(kind));
    }
    assert_eq!(ProcessorKind::parse("venmo"), None);
}

#[test]
fn sessions_respect_the_bound_processor() {
    let mut store = MemoryStore::new();
    store.insert_new(new("r"));
    assert!(store.set_session("creator", "BUNDLE", session("a", None)));
    let mut other = session("b", None);
    other.processor = "paypal";
    assert!(!store.set_session("creator", "BUNDLE", other));
    let row = store.get("creator", "BUNDLE").unwrap();
    assert_eq!(row.processor.as_deref(), Some("stripe"));
    assert_eq!(row.session_id.as_deref(), Some("a"));
}

#[test]
fn a_session_without_a_processor_is_a_stripe_session() {
    let mut store = MemoryStore::new();
    store.insert_new(new("r"));
    let mut row = store.get("creator", "BUNDLE").unwrap();
    row.session_id = Some("old".to_owned());
    let mut other = session("b", None);
    other.processor = "paypal";
    assert!(!row.set_session(other));
    assert!(row.set_session(session("c", None)));
    assert_eq!(row.processor.as_deref(), Some("stripe"));
}
