use fiat_verifier::clock::{Span, Timestamp};
use fiat_verifier::state::{report, Report};
use fiat_verifier::store::{Correlation, CorrelationState};
use fiat_verifier::wire::{StatusKind, TransactionStatus};

fn correlation(state: CorrelationState, paid_at: Option<Timestamp>) -> Correlation {
    Correlation {
        creator: "pubkycreator".into(),
        bundle_id: "BUNDLE".into(),
        lock_resource: "pubkycreator/pub/locks.app/x.json".into(),
        reader: "pubkyreader".into(),
        asset: "USD".into(),
        amount_minor: 1999,
        state,
        processor: None,
        session_id: Some("cs_test_1".into()),
        checkout_url: Some("https://checkout.stripe.com/c/pay/x".into()),
        checkout_expires_at: None,
        return_origin: None,
        session_attempt: 1,
        payment_intent: None,
        amount_matched: matches!(state, CorrelationState::Paid | CorrelationState::Confirmed),
        paid_at,
        confirmed_at: None,
    }
}

fn delay() -> Span {
    Span::from_secs(300)
}

const SYNTH: u32 = 1;

fn at(unix: i64) -> Timestamp {
    Timestamp::from_unix(unix).unwrap()
}

#[test]
fn created_reports_undetected() {
    let report = report(
        &correlation(CorrelationState::Created, None),
        at(1_000_000),
        delay(),
        SYNTH,
    );
    assert_eq!(
        report,
        Report::Immediate(TransactionStatus {
            status: StatusKind::Undetected,
            confirmations: 0,
            amount_matched: false
        })
    );
}

#[test]
fn paid_inside_delay_reports_detected() {
    let outcome = report(
        &correlation(CorrelationState::Paid, Some(at(1_000_000))),
        at(1_000_000 + 299),
        delay(),
        SYNTH,
    );
    assert_eq!(
        outcome,
        Report::Immediate(TransactionStatus {
            status: StatusKind::Detected,
            confirmations: 0,
            amount_matched: true
        })
    );
}

#[test]
fn paid_after_delay_requires_promotion_pull() {
    let outcome = report(
        &correlation(CorrelationState::Paid, Some(at(1_000_000))),
        at(1_000_000 + 300),
        delay(),
        SYNTH,
    );
    assert_eq!(
        outcome,
        Report::PromotionDue {
            fallback: TransactionStatus {
                status: StatusKind::Detected,
                confirmations: 0,
                amount_matched: true
            }
        }
    );
}

#[test]
fn paid_with_amount_mismatch_never_promotes() {
    let mut row = correlation(CorrelationState::Paid, Some(at(1_000_000)));
    row.amount_matched = false;
    let outcome = report(&row, at(2_000_000), delay(), SYNTH);
    assert_eq!(
        outcome,
        Report::Immediate(TransactionStatus {
            status: StatusKind::Detected,
            confirmations: 0,
            amount_matched: false
        })
    );
}

#[test]
fn confirmed_reports_synthesized_confirmations() {
    let outcome = report(
        &correlation(CorrelationState::Confirmed, Some(at(1_000_000))),
        at(2_000_000),
        delay(),
        3,
    );
    assert_eq!(
        outcome,
        Report::Immediate(TransactionStatus {
            status: StatusKind::Confirmed,
            confirmations: 3,
            amount_matched: true
        })
    );
}

#[test]
fn reversed_reports_undetected() {
    let outcome = report(
        &correlation(CorrelationState::Reversed, Some(at(1_000_000))),
        at(2_000_000),
        delay(),
        SYNTH,
    );
    assert_eq!(
        outcome,
        Report::Immediate(TransactionStatus {
            status: StatusKind::Undetected,
            confirmations: 0,
            amount_matched: false
        })
    );
}

#[test]
fn a_paid_row_without_a_time_and_an_endless_delay_never_promote() {
    let row = correlation(CorrelationState::Paid, None);
    assert!(matches!(
        report(&row, at(2_000_000), delay(), SYNTH),
        Report::Immediate(_)
    ));
    let row = correlation(CorrelationState::Paid, Some(at(1_000_000)));
    assert!(matches!(
        report(&row, at(2_000_000), Span::from_secs(u64::MAX), SYNTH),
        Report::Immediate(_)
    ));
}

#[test]
fn times_are_kept_to_the_nanosecond() {
    let earlier = Timestamp::from_unix_nanos(-1).unwrap();
    assert_eq!(earlier.unix(), -1);
    assert_eq!(earlier.unix_nanos(), -1);
    assert_eq!(at(7).unix(), 7);
    assert_eq!(Timestamp::from_unix(i64::MAX), None);
    let span = Span::from_parts(1, 999_999_999).unwrap();
    assert_eq!(span.as_secs(), 1);
    assert_eq!(span.as_nanos(), 1_999_999_999);
    assert_eq!(Span::from_parts(0, 1_000_000_000), None);
    let mut row = correlation(CorrelationState::Paid, Some(at(0)));
    row.amount_matched = true;
    let just_before = Timestamp::from_unix_nanos(1_999_999_998).unwrap();
    let just_after = Timestamp::from_unix_nanos(1_999_999_999).unwrap();
    assert!(matches!(report(&row, just_before, span, SYNTH), Report::Immediate(_)));
    assert!(matches!(
        report(&row, just_after, span, SYNTH),
        Report::PromotionDue { .. }
    ));
}
