//! Pure mapping from fiat state to wire status.
//!
//! | internal state                | reported                                   |
//! | ----------------------------- | ------------------------------------------ |
//! | created                       | undetected, 0, false                       |
//! | paid, inside settlement delay | detected, 0, amount_matched                |
//! | paid, delay elapsed           | promotion due: a fresh pull decides        |
//! | confirmed                     | confirmed, synthesized confirmations, true |
//! | reversed                      | undetected, 0, false (never promoted)      |

use crate::clock;
use crate::clock::Span;
use crate::clock::Timestamp;
use crate::store::Correlation;
use crate::store::CorrelationModel;
use crate::store::CorrelationState;
use crate::wire::StatusKind;
use crate::wire::TransactionStatus;
use vstd::prelude::*;

verus! {

#[derive(Clone, Copy, Debug, PartialEq, Eq, Structural)]
pub enum Report {
    Immediate(TransactionStatus),
    /// The settlement delay has elapsed: the caller must do a fresh pull and
    /// report `confirmed` only if the pull still says paid.
    PromotionDue { fallback: TransactionStatus },
}

/// Nothing was detected.
pub open spec fn undetected() -> TransactionStatus {
    TransactionStatus {
        status: StatusKind::Undetected,
        confirmations: 0,
        amount_matched: false,
    }
}

/// A payment was detected, and is not confirmed.
pub open spec fn detected(amount_matched: bool) -> TransactionStatus {
    TransactionStatus { status: StatusKind::Detected, confirmations: 0, amount_matched }
}

/// A payment is confirmed.
pub open spec fn settled(confirmations: u32) -> TransactionStatus {
    TransactionStatus { status: StatusKind::Confirmed, confirmations, amount_matched: true }
}

/// Whether the settlement delay of a paid row has elapsed.
pub open spec fn delay_elapsed(row: CorrelationModel, now: int, settlement_delay: int) -> bool {
    row.paid_at matches Some(paid_at) && now >= paid_at + settlement_delay
}

/// What is reported of a row.
pub open spec fn reported(
    row: CorrelationModel,
    now: int,
    settlement_delay: int,
    confirmations: u32,
) -> Report {
    match row.state {
        CorrelationState::Created => Report::Immediate(undetected()),
        CorrelationState::Reversed => Report::Immediate(undetected()),
        CorrelationState::Paid => if delay_elapsed(row, now, settlement_delay)
            && row.amount_matched {
            Report::PromotionDue { fallback: detected(true) }
        } else {
            Report::Immediate(detected(row.amount_matched))
        },
        CorrelationState::Confirmed => Report::Immediate(settled(confirmations)),
    }
}

/// What is reported of a correlation. A settlement delay that reaches past the
/// end of the calendar never elapses.
pub fn report(
    correlation: &Correlation,
    now: Timestamp,
    settlement_delay: Span,
    synthesized_confirmations: u32,
) -> (outcome: Report)
    ensures
        outcome == reported(
            correlation@,
            now@,
            settlement_delay@,
            synthesized_confirmations,
        ),
{
    let nothing: TransactionStatus = TransactionStatus {
        status: StatusKind::Undetected,
        confirmations: 0,
        amount_matched: false,
    };
    match correlation.state {
        CorrelationState::Created => Report::Immediate(nothing),
        CorrelationState::Reversed => Report::Immediate(nothing),
        CorrelationState::Paid => {
            let seen: TransactionStatus = TransactionStatus {
                status: StatusKind::Detected,
                confirmations: 0,
                amount_matched: correlation.amount_matched,
            };
            let elapsed: bool = match correlation.paid_at {
                Some(paid_at) => clock::has_elapsed(paid_at, settlement_delay, now),
                None => false,
            };
            if elapsed && correlation.amount_matched {
                Report::PromotionDue { fallback: seen }
            } else {
                // Paid for a wrong amount or currency is reported as it is,
                // and never promoted.
                Report::Immediate(seen)
            }
        },
        CorrelationState::Confirmed => Report::Immediate(
            TransactionStatus {
                status: StatusKind::Confirmed,
                confirmations: synthesized_confirmations,
                amount_matched: true,
            },
        ),
    }
}

/// Only a confirmed row is reported confirmed at once, and a promotion is due
/// only for a paid row with a matched amount whose settlement delay has
/// elapsed. A created or reversed row is always reported undetected.
pub proof fn report_is_honest(
    row: CorrelationModel,
    now: int,
    settlement_delay: int,
    confirmations: u32,
)
    ensures
        reported(row, now, settlement_delay, confirmations) matches Report::Immediate(status) ==> (
        status.status == StatusKind::Confirmed <==> row.state == CorrelationState::Confirmed),
        reported(row, now, settlement_delay, confirmations) is PromotionDue <==> row.state
            == CorrelationState::Paid && row.amount_matched && delay_elapsed(
            row,
            now,
            settlement_delay,
        ),
        row.state == CorrelationState::Created || row.state == CorrelationState::Reversed
            ==> reported(row, now, settlement_delay, confirmations) == Report::Immediate(
            undetected(),
        ),
{
}

} // verus!
