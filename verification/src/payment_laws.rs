//! What a payment is: what a pull reads, what it makes of a Stripe session or a
//! PayPal order, and what is reported of a row. The laws speak of the fields of
//! the answers and of the row.

use crate::decimal;
use crate::effects::ActionModel;
use crate::effects::Event;
use crate::effects::TurnModel;
use crate::money;
use crate::paypal;
use crate::paypal::Capture;
use crate::paypal::Order;
use crate::paypal::PurchaseUnit;
use crate::state;
use crate::state::Report;
use crate::store::CorrelationModel;
use crate::store::CorrelationState;
use crate::stripe::CheckoutSession;
use crate::text;
use crate::verification;
use crate::verification::Processors;
use crate::verification::PromotionModel;
use crate::verification::PromotionStageModel;
use crate::verification::PullModel;
use crate::verification::PullOutcome;
use crate::verification::PullStage;
use crate::wire::StatusKind;
use crate::wire::TransactionStatus;
use vstd::prelude::*;

verus! {

/// Whether two characters are the same ASCII letter in either case, or the same
/// character.
pub open spec fn same_letter(a: char, b: char) -> bool {
    ||| a == b
    ||| 'A' <= a <= 'Z' && b as int == a as int + 32
    ||| 'A' <= b <= 'Z' && a as int == b as int + 32
}

/// Whether two texts differ in the case of ASCII letters at most.
pub open spec fn same_letters(a: Seq<char>, b: Seq<char>) -> bool {
    a.len() == b.len() && forall|i: int| 0 <= i < a.len() ==> same_letter(#[trigger] a[i], b[i])
}

/// Texts are compared without regard to case exactly if they differ in the case
/// of ASCII letters at most.
pub proof fn case_is_ignored(a: Seq<char>, b: Seq<char>)
    ensures
        text::lower(a) == text::lower(b) <==> same_letters(a, b),
{
    let low_a = text::lower(a);
    let low_b = text::lower(b);
    if low_a == low_b {
        assert(a.len() == low_a.len() && b.len() == low_b.len());
        assert forall|i: int| 0 <= i < a.len() implies same_letter(#[trigger] a[i], b[i]) by {
            assert(low_a[i] == low_b[i]);
        }
    }
    if same_letters(a, b) {
        assert forall|i: int| 0 <= i < a.len() implies low_a[i] == low_b[i] by {
            assert(same_letter(a[i], b[i]));
        }
        assert(low_a =~= low_b);
    }
}

/// Whether a session was paid.
pub open spec fn is_paid(session: CheckoutSession) -> bool {
    session.payment_status matches Some(status) && status@ == "paid"@
}

/// Whether a session is for exactly the amount and the asset of a row.
pub open spec fn is_for(session: CheckoutSession, row: CorrelationModel) -> bool {
    &&& session.amount_total matches Some(total) && total == row.amount_minor
    &&& session.currency matches Some(currency) && same_letters(currency@, row.asset)
}

/// A pulled Stripe session is recorded as a payment of a created row exactly if
/// its payment status is `paid`, and as a matching one exactly if it is for the
/// row's amount and asset. A row past `created` is only told the outcome.
pub proof fn stripe_session_is_judged_by_its_fields(pull: PullModel, session: CheckoutSession)
    requires
        pull.stage == PullStage::Session,
    ensures
        ({
            let turn = verification::pull_step(pull, Event::Session(Ok(session)));
            let matched = is_for(session, pull.row);
            if !is_paid(session) {
                turn == TurnModel::<PullModel, PullOutcome>::Done(PullOutcome::Unpaid)
            } else if pull.row.state != CorrelationState::Created {
                turn == TurnModel::<PullModel, PullOutcome>::Done(
                    PullOutcome::Paid { amount_matched: matched },
                )
            } else {
                &&& turn matches TurnModel::Perform(next, action)
                &&& next == (PullModel {
                    stage: PullStage::Recording { amount_matched: matched },
                    ..pull
                })
                &&& action matches ActionModel::MarkPaid {
                    creator,
                    bundle_id,
                    amount_matched,
                    payment_intent,
                    paid_at,
                }
                &&& creator == pull.row.creator
                &&& bundle_id == pull.row.bundle_id
                &&& amount_matched == matched
                &&& match (session.payment_intent, payment_intent) {
                    (Some(named), Some(kept)) => named@ == kept,
                    (None, None) => true,
                    _ => false,
                }
                &&& paid_at == pull.now
            }
        }),
{
    if let Some(currency) = session.currency {
        case_is_ignored(currency@, pull.row.asset);
    }
}

/// Whether a capture is completed itself.
pub open spec fn is_captured(capture: Capture) -> bool {
    capture.status matches Some(status) && status@ == "COMPLETED"@
}

/// Whether a capture is for exactly the amount and the asset of a row.
pub open spec fn captures_for(capture: Capture, row: CorrelationModel) -> bool {
    &&& capture.amount matches Some(amount)
    &&& same_letters(amount.currency_code@, row.asset)
    &&& money::minor_amount(row.asset, amount.value@) == Some(row.amount_minor)
}

/// The captures of a purchase unit.
pub open spec fn captures_of(unit: PurchaseUnit) -> Seq<Capture> {
    match unit.payments {
        Some(payments) => payments.captures@,
        None => Seq::empty(),
    }
}

/// Whether none of the captures of a unit, before the given one, is completed.
pub open spec fn none_before(unit: PurchaseUnit, end: int) -> bool {
    forall|j: int|
        0 <= j < end && j < captures_of(unit).len() ==> !is_captured(
            #[trigger] captures_of(unit)[j],
        )
}

/// Whether the capture at that place is the first completed one of an order.
pub open spec fn is_first_captured(units: Seq<PurchaseUnit>, unit: int, at: int) -> bool {
    &&& 0 <= unit < units.len()
    &&& 0 <= at < captures_of(units[unit]).len()
    &&& is_captured(captures_of(units[unit])[at])
    &&& none_before(units[unit], at)
    &&& forall|k: int|
        0 <= k < unit ==> none_before(#[trigger] units[k], captures_of(units[k]).len() as int)
}

proof fn lemma_first_at(captures: Seq<Capture>, at: int)
    requires
        0 <= at < captures.len(),
        is_captured(captures[at]),
        forall|j: int| 0 <= j < at ==> !is_captured(#[trigger] captures[j]),
    ensures
        paypal::first_completed(captures) == Some(captures[at]),
    decreases captures.len(),
{
    if at > 0 {
        assert(!is_captured(captures[0]));
        let rest = captures.skip(1);
        assert forall|j: int| 0 <= j < at - 1 implies !is_captured(#[trigger] rest[j]) by {
            assert(rest[j] == captures[j + 1]);
        }
        assert(rest[at - 1] == captures[at]);
        lemma_first_at(rest, at - 1);
    }
}

proof fn lemma_none_first(captures: Seq<Capture>)
    requires
        forall|j: int| 0 <= j < captures.len() ==> !is_captured(#[trigger] captures[j]),
    ensures
        paypal::first_completed(captures) is None,
    decreases captures.len(),
{
    if captures.len() > 0 {
        assert(!is_captured(captures[0]));
        let rest = captures.skip(1);
        assert forall|j: int| 0 <= j < rest.len() implies !is_captured(#[trigger] rest[j]) by {
            assert(rest[j] == captures[j + 1]);
        }
        lemma_none_first(rest);
    }
}

proof fn lemma_first_of_all(front: Seq<Capture>, rest: Seq<Capture>)
    ensures
        paypal::first_completed(front + rest) == (match paypal::first_completed(front) {
            Some(capture) => Some(capture),
            None => paypal::first_completed(rest),
        }),
    decreases front.len(),
{
    if front.len() == 0 {
        assert(front + rest =~= rest);
    } else {
        assert((front + rest).skip(1) =~= front.skip(1) + rest);
        lemma_first_of_all(front.skip(1), rest);
    }
}

proof fn lemma_first_in_order(units: Seq<PurchaseUnit>, unit: int, at: int)
    requires
        is_first_captured(units, unit, at),
    ensures
        paypal::first_completed(paypal::all_captures(units)) == Some(
            captures_of(units[unit])[at],
        ),
    decreases units.len(),
{
    let rest = units.skip(1);
    let front = captures_of(units[0]);
    let behind = paypal::all_captures(rest);
    assert(paypal::all_captures(units) =~= front + behind);
    lemma_first_of_all(front, behind);
    if unit == 0 {
        lemma_first_at(front, at);
    } else {
        assert(none_before(units[0], captures_of(units[0]).len() as int));
        lemma_none_first(front);
        assert(rest[unit - 1] == units[unit]);
        assert forall|k: int| 0 <= k < unit - 1 implies none_before(
            #[trigger] rest[k],
            captures_of(rest[k]).len() as int,
        ) by {
            assert(rest[k] == units[k + 1]);
        }
        lemma_first_in_order(rest, unit - 1, at);
    }
}

proof fn lemma_none_in_order(units: Seq<PurchaseUnit>)
    requires
        forall|k: int|
            0 <= k < units.len() ==> none_before(
                #[trigger] units[k],
                captures_of(units[k]).len() as int,
            ),
    ensures
        paypal::first_completed(paypal::all_captures(units)) is None,
    decreases units.len(),
{
    if units.len() > 0 {
        let rest = units.skip(1);
        let front = captures_of(units[0]);
        let behind = paypal::all_captures(rest);
        assert(paypal::all_captures(units) =~= front + behind);
        lemma_first_of_all(front, behind);
        assert(none_before(units[0], captures_of(units[0]).len() as int));
        lemma_none_first(front);
        assert forall|k: int| 0 <= k < rest.len() implies none_before(
            #[trigger] rest[k],
            captures_of(rest[k]).len() as int,
        ) by {
            assert(rest[k] == units[k + 1]);
        }
        lemma_none_in_order(rest);
    }
}

/// Whether an order has that status.
pub open spec fn has_status(order: Order, status: Seq<char>) -> bool {
    order.status matches Some(named) && named@ == status
}

/// A pulled PayPal order that is completed is recorded as a payment of a created
/// row, by its first completed capture: as a matching one exactly if that
/// capture's decimal value stands for the row's amount, in the row's asset up
/// to case. A row past `created` is only told the outcome.
pub proof fn paypal_order_is_judged_by_its_first_capture(
    pull: PullModel,
    order: Order,
    unit: int,
    at: int,
)
    requires
        pull.stage == PullStage::Order || pull.stage == PullStage::Capture,
        has_status(order, "COMPLETED"@),
        is_first_captured(order.purchase_units@, unit, at),
    ensures
        ({
            let turn = verification::pull_step(pull, Event::Order(Ok(order)));
            let capture = captures_of(order.purchase_units@[unit])[at];
            let matched = captures_for(capture, pull.row);
            if pull.row.state != CorrelationState::Created {
                turn == TurnModel::<PullModel, PullOutcome>::Done(
                    PullOutcome::Paid { amount_matched: matched },
                )
            } else {
                &&& turn matches TurnModel::Perform(next, action)
                &&& next == (PullModel {
                    stage: PullStage::Recording { amount_matched: matched },
                    ..pull
                })
                &&& action == (ActionModel::MarkPaid {
                    creator: pull.row.creator,
                    bundle_id: pull.row.bundle_id,
                    amount_matched: matched,
                    payment_intent: Some(capture.id@),
                    paid_at: pull.now,
                })
            }
        }),
{
    lemma_first_in_order(order.purchase_units@, unit, at);
    let capture = captures_of(order.purchase_units@[unit])[at];
    if let Some(amount) = capture.amount {
        case_is_ignored(amount.currency_code@, pull.row.asset);
    }
}

/// An order without a completed capture, and an order that is neither completed
/// nor approved, is no payment, whatever else it says.
pub proof fn paypal_order_without_capture_is_unpaid(pull: PullModel, order: Order)
    requires
        pull.stage == PullStage::Order || pull.stage == PullStage::Capture,
        (has_status(order, "COMPLETED"@) && forall|k: int|
            0 <= k < order.purchase_units@.len() ==> none_before(
                #[trigger] order.purchase_units@[k],
                captures_of(order.purchase_units@[k]).len() as int,
            )) || (!has_status(order, "COMPLETED"@) && (!has_status(order, "APPROVED"@)
            || pull.stage == PullStage::Capture)),
    ensures
        verification::pull_step(pull, Event::Order(Ok(order))) == TurnModel::<
            PullModel,
            PullOutcome,
        >::Done(PullOutcome::Unpaid),
{
    if has_status(order, "COMPLETED"@) {
        lemma_none_in_order(order.purchase_units@);
    }
}

/// An approved order is captured under its own id, with one request id for each
/// order.
pub proof fn approved_order_is_captured_by_its_id(
    pull: PullModel,
    order: Order,
    order_id: Seq<char>,
)
    requires
        pull.stage == PullStage::Order,
        pull.row.session_id == Some(order_id),
        has_status(order, "APPROVED"@),
    ensures
        verification::pull_step(pull, Event::Order(Ok(order))) matches TurnModel::Perform(
            next,
            action,
        ) && next == (PullModel { stage: PullStage::Capture, ..pull }) && action == (
        ActionModel::CaptureOrder { order_id, request_id: "cap-"@ + order_id }),
{
    reveal_strlit("APPROVED");
    reveal_strlit("COMPLETED");
    assert("APPROVED"@.len() != "COMPLETED"@.len());
}

/// A pull whose read, capture or record fails, or is answered with something
/// else, moves nothing and is told as unavailable.
pub proof fn failed_pull_moves_nothing(pull: PullModel, event: Event)
    requires
        match pull.stage {
            PullStage::Session => !(event matches Event::Session(Ok(_))),
            PullStage::Order => !(event matches Event::Order(Ok(_))),
            PullStage::Capture => !(event matches Event::Order(Ok(_))),
            PullStage::Recording { amount_matched: _ } => !(event matches Event::Marked(Ok(_))),
        },
    ensures
        verification::pull_step(pull, event) == TurnModel::<PullModel, PullOutcome>::Done(
            PullOutcome::Unavailable,
        ),
{
}

/// A recorded payment is told with the amount check that was recorded.
pub proof fn recorded_payment_is_told(pull: PullModel, matched: bool)
    requires
        pull.stage == (PullStage::Recording { amount_matched: matched }),
    ensures
        verification::pull_step(pull, Event::Marked(Ok(()))) == TurnModel::<
            PullModel,
            PullOutcome,
        >::Done(PullOutcome::Paid { amount_matched: matched }),
{
}

/// A row with a session is pulled by that session's id: from Stripe if it says
/// `stripe` or names no processor, from PayPal if it says `paypal`. Nothing is
/// pulled of a row without a session, or whose processor is not configured.
pub proof fn rows_are_pulled_from_their_processor(
    processors: Processors,
    row: CorrelationModel,
    now: int,
)
    ensures
        ({
            let turn = verification::pull_start(processors, row, now);
            let stripe = row.processor == Some("stripe"@) || row.processor is None;
            let paypal = row.processor == Some("paypal"@);
            match row.session_id {
                Some(session_id) => if stripe && processors.stripe is Some {
                    &&& turn matches TurnModel::Perform(pull, action)
                    &&& pull == (PullModel { row, now, stage: PullStage::Session })
                    &&& action == (ActionModel::RetrieveSession { session_id })
                } else if paypal && processors.paypal is Some {
                    &&& turn matches TurnModel::Perform(pull, action)
                    &&& pull == (PullModel { row, now, stage: PullStage::Order })
                    &&& action == (ActionModel::RetrieveOrder { order_id: session_id })
                } else if stripe || paypal {
                    turn == TurnModel::<PullModel, PullOutcome>::Done(PullOutcome::Unavailable)
                } else {
                    turn == TurnModel::<PullModel, PullOutcome>::Done(PullOutcome::Unpaid)
                },
                None => !(turn is Perform) && !(turn matches TurnModel::Done(outcome)
                    && outcome is Paid),
            }
        }),
{
    reveal_strlit("stripe");
    reveal_strlit("paypal");
    assert("stripe"@[0] == 's' && "paypal"@[0] == 'p');
}

/// A promotion records the confirmation, at its own time, exactly when its pull
/// ends with a matched payment; any other end of the pull ends it without one.
pub proof fn promotion_follows_its_pull(promotion: PromotionModel, pull: PullModel, event: Event)
    requires
        promotion.stage == PromotionStageModel::Pulling(pull),
    ensures
        match verification::pull_step(pull, event) {
            TurnModel::Done(outcome) => if outcome == (PullOutcome::Paid { amount_matched: true }) {
                &&& verification::promotion_step(promotion, event) matches TurnModel::Perform(
                    next,
                    action,
                )
                &&& action == (ActionModel::MarkConfirmed {
                    creator: promotion.creator,
                    bundle_id: promotion.bundle_id,
                    confirmed_at: promotion.now,
                })
                &&& verification::promotion_step(next, Event::Marked(Ok(()))) == TurnModel::<
                    PromotionModel,
                    bool,
                >::Done(true)
                &&& forall|other: Event|
                    !(other matches Event::Marked(Ok(_)))
                        ==> #[trigger] verification::promotion_step(next, other) == TurnModel::<
                        PromotionModel,
                        bool,
                    >::Done(false)
            } else {
                verification::promotion_step(promotion, event) == TurnModel::<
                    PromotionModel,
                    bool,
                >::Done(false)
            },
            TurnModel::Perform(next_pull, next_action) => {
                &&& verification::promotion_step(promotion, event) matches TurnModel::Perform(
                    next,
                    action,
                )
                &&& next == (PromotionModel {
                    stage: PromotionStageModel::Pulling(next_pull),
                    ..promotion
                })
                &&& action == next_action
            },
        },
{
}

/// A created or reversed row is reported as undetected without confirmations, a
/// paid row as detected without confirmations and with its amount check, a
/// confirmed row as confirmed with the configured number of confirmations. A
/// promotion is due exactly for a paid row with a matched amount since whose
/// payment the settlement delay has passed.
pub proof fn rows_are_reported_by_state_and_time(
    row: CorrelationModel,
    now: int,
    settlement_delay: int,
    confirmations: u32,
)
    ensures
        ({
            let report = state::reported(row, now, settlement_delay, confirmations);
            let nothing = TransactionStatus {
                status: StatusKind::Undetected,
                confirmations: 0,
                amount_matched: false,
            };
            let seen = TransactionStatus {
                status: StatusKind::Detected,
                confirmations: 0,
                amount_matched: row.amount_matched,
            };
            let rested = row.paid_at matches Some(paid_at) && now - paid_at >= settlement_delay;
            match row.state {
                CorrelationState::Created => report == Report::Immediate(nothing),
                CorrelationState::Reversed => report == Report::Immediate(nothing),
                CorrelationState::Confirmed => report == Report::Immediate(
                    TransactionStatus {
                        status: StatusKind::Confirmed,
                        confirmations,
                        amount_matched: true,
                    },
                ),
                CorrelationState::Paid => if rested && row.amount_matched {
                    report == (Report::PromotionDue { fallback: seen })
                } else {
                    report == Report::Immediate(seen)
                },
            }
        }),
{
}

/// The digit that a number below ten is written as.
pub open spec fn numeral(digit: int) -> char {
    ('0' as int + digit) as char
}

/// Numbers are written in decimal: a number below ten as one digit, and a
/// further digit behind a number makes ten times the number plus the digit. A
/// negative number has a minus sign before it.
pub proof fn decimals_are_positional(n: nat, digit: nat)
    requires
        digit < 10,
    ensures
        decimal::decimal(digit as int) == seq![numeral(digit as int)],
        n > 0 ==> decimal::decimal((10 * n + digit) as int) == decimal::decimal(n as int).push(
            numeral(digit as int),
        ),
        n > 0 ==> decimal::decimal(-(n as int)) == seq!['-'] + decimal::decimal(n as int),
{
    if n > 0 {
        let larger = (10 * n + digit) as nat;
        assert(larger / 10 == n && larger % 10 == digit);
    }
}

/// The currencies whose amounts have no decimal places.
pub open spec fn whole_unit_assets() -> Seq<Seq<char>> {
    seq![
        "BIF"@,
        "CLP"@,
        "DJF"@,
        "GNF"@,
        "JPY"@,
        "KMF"@,
        "KRW"@,
        "MGA"@,
        "PYG"@,
        "RWF"@,
        "UGX"@,
        "VND"@,
        "VUV"@,
        "XAF"@,
        "XOF"@,
        "XPF"@,
    ]
}

/// An amount is written in whole units for the currencies without decimal
/// places, and otherwise in units, a point and two digits.
pub proof fn amounts_are_written_in_units(asset: Seq<char>, units: nat, cents: nat)
    requires
        cents < 100,
    ensures
        if whole_unit_assets().contains(asset) {
            money::decimal_amount(asset, units as int) == decimal::decimal(units as int)
        } else {
            money::decimal_amount(asset, (100 * units + cents) as int) == decimal::decimal(
                units as int,
            ) + seq!['.', numeral(cents as int / 10), numeral(cents as int % 10)]
        },
{
    lemma_whole_unit(asset);
    if !whole_unit_assets().contains(asset) {
        let minor = 100 * units + cents;
        assert(money::hundreds(minor as int) == units);
        decimals_are_positional(cents / 10, cents % 10);
        decimals_are_positional(0, cents % 10);
        assert(money::two_places(cents as int) =~= seq![
            numeral(cents as int / 10),
            numeral(cents as int % 10),
        ]) by {
            if cents >= 10 {
                decimals_are_positional(0, cents / 10);
            }
        }
        assert(money::decimal_amount(asset, minor as int) =~= decimal::decimal(units as int)
            + seq!['.', numeral(cents as int / 10), numeral(cents as int % 10)]);
    }
}

proof fn lemma_whole_unit(asset: Seq<char>)
    ensures
        money::is_zero_decimal(asset) <==> whole_unit_assets().contains(asset),
{
    let all = whole_unit_assets();
    assert(all[0] == "BIF"@ && all[1] == "CLP"@ && all[2] == "DJF"@ && all[3] == "GNF"@);
    assert(all[4] == "JPY"@ && all[5] == "KMF"@ && all[6] == "KRW"@ && all[7] == "MGA"@);
    assert(all[8] == "PYG"@ && all[9] == "RWF"@ && all[10] == "UGX"@ && all[11] == "VND"@);
    assert(all[12] == "VUV"@ && all[13] == "XAF"@ && all[14] == "XOF"@ && all[15] == "XPF"@);
}

/// The value of a digit.
pub open spec fn digit_value(c: char) -> int {
    c as int - '0' as int
}

/// A decimal string of units and a fraction stands for the units and the
/// fraction in minor units: up to two places for most currencies, and none but
/// zeros for those without decimal places. Anything finer, and anything that
/// does not fit, is refused rather than rounded.
pub proof fn amounts_are_read_in_units(asset: Seq<char>, units: nat, fraction: Seq<char>)
    requires
        units <= i64::MAX,
        forall|i: int| 0 <= i < fraction.len() ==> '0' <= #[trigger] fraction[i] <= '9',
    ensures
        ({
            let written = decimal::decimal(units as int).push('.') + fraction;
            let minor = if whole_unit_assets().contains(asset) {
                if exists|i: int| 0 <= i < fraction.len() && fraction[i] != '0' {
                    None
                } else {
                    Some(units as int)
                }
            } else if fraction.len() == 0 {
                Some(100 * units as int)
            } else if fraction.len() == 1 {
                Some(100 * units + 10 * digit_value(fraction[0]))
            } else if fraction.len() == 2 {
                Some(100 * units + 10 * digit_value(fraction[0]) + digit_value(fraction[1]))
            } else {
                None
            };
            money::minor_amount(asset, written) == (match minor {
                Some(minor) => if minor <= i64::MAX {
                    Some(minor)
                } else {
                    None
                },
                None => None,
            })
        }),
        money::minor_amount(asset, decimal::decimal(units as int)) == money::minor_amount(
            asset,
            decimal::decimal(units as int).push('.'),
        ),
{
    lemma_whole_unit(asset);
    let whole = decimal::decimal(units as int);
    decimal::lemma_digits(units);
    decimal::lemma_scan_digits(units, i64::MAX as nat);
    assert(whole =~= decimal::digits(units));
    if whole.contains('.') {
        let i = whole.index_of('.');
        assert(decimal::is_digit(whole[i]));
    }
    text::lemma_split_once_unique(whole, '.', fraction);
    text::lemma_split_once_unique(whole, '.', Seq::empty());
    assert(whole.push('.') + Seq::<char>::empty() =~= whole.push('.'));
    text::lemma_split_once(whole, '.');
    assert(decimal::all_digits(fraction)) by {
        assert forall|i: int| 0 <= i < fraction.len() implies decimal::is_digit(
            #[trigger] fraction[i],
        ) by {
            assert('0' <= fraction[i] <= '9');
        }
    }
}

/// Only digits with at most one point among them, beginning with a digit, are
/// read as an amount, and the amount is never negative.
pub proof fn only_plain_numerals_are_amounts(asset: Seq<char>, value: Seq<char>)
    ensures
        money::minor_amount(asset, value) matches Some(minor) ==> {
            &&& 0 <= minor <= i64::MAX
            &&& value.len() > 0
            &&& '0' <= value[0] <= '9'
            &&& forall|i: int|
                0 <= i < value.len() ==> '0' <= #[trigger] value[i] <= '9' || value[i] == '.'
            &&& forall|i: int, j: int|
                0 <= i < value.len() && 0 <= j < value.len() && #[trigger] value[i] == '.'
                    && #[trigger] value[j] == '.' ==> i == j
        },
{
    text::lemma_split_once(value, '.');
    let (whole, fraction) = money::amount_parts(value);
    if money::minor_amount(asset, value) is Some {
        money::lemma_scan_bound(whole, i64::MAX as nat);
        assert(decimal::is_digit(whole[0]));
        if !money::is_zero_decimal(asset) {
            if fraction.len() > 0 {
                assert(decimal::is_digit(fraction[0]));
            }
            if fraction.len() > 1 {
                assert(decimal::is_digit(fraction[1]));
            }
        }
        match text::split_once(value, '.') {
            Some(_) => {
                assert(value =~= whole.push('.') + fraction);
                assert forall|i: int| 0 <= i < value.len() && i != whole.len() implies '0'
                    <= #[trigger] value[i] <= '9' by {
                    if i < whole.len() {
                        assert(decimal::is_digit(whole[i]));
                    } else {
                        assert(decimal::is_digit(fraction[i - whole.len() - 1]));
                    }
                }
            },
            None => {
                assert forall|i: int| 0 <= i < value.len() implies '0' <= #[trigger] value[i]
                    <= '9' by {
                    assert(decimal::is_digit(whole[i]));
                }
            },
        }
    }
}

} // verus!
