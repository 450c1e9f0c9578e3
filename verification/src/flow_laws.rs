//! What holds of the gateway's flows: payments are recognized from pulls alone,
//! Bitcoin calls pass through untouched, and everything else fails closed.

use crate::auth;
use crate::checkout;
use crate::checkout::CheckoutModel;
use crate::checkout::ChoiceModel;
use crate::effects::ActionModel;
use crate::effects::Event;
use crate::effects::ReplyModel;
use crate::effects::TurnModel;
use crate::error::ApiError;
use crate::http;
use crate::http::AppState;
use crate::invoice;
use crate::invoice::FiatInvoiceModel;
use crate::invoice::InvoiceModel;
use crate::lock_fetch::LockCriterion;
use crate::memory;
use crate::memory::StoreModel;
use crate::mint;
use crate::mint::MintModel;
use crate::mint::MintStageModel;
use crate::mint::MintTaskModel;
use crate::mint::MintedModel;
use crate::paypal;
use crate::paypal::Capture;
use crate::paypal::Order;
use crate::state;
use crate::status;
use crate::status::StatusCheckModel;
use crate::store;
use crate::store::Correlation;
use crate::store::CorrelationModel;
use crate::store::CorrelationState;
use crate::store::NewCorrelationModel;
use crate::store::SessionRecordModel;
use crate::stripe;
use crate::stripe::CheckoutSession;
use crate::text;
use crate::verification;
use crate::verification::ProcessorKind;
use crate::verification::PromotionModel;
use crate::verification::PromotionStageModel;
use crate::verification::PullModel;
use crate::verification::PullOutcome;
use crate::verification::PullStage;
use crate::verification::PulledModel;
use crate::webhooks;
use crate::webhooks::HintModel;
use crate::webhooks::WebhookModel;
use crate::wire::CheckoutSessionRequest;
use crate::wire::StatusKind;
use crate::wire::StatusRequestModel;
use crate::worker;
use crate::worker::PollModel;
use vstd::prelude::*;

verus! {

/// Whether an answer of the processor's read API says that a row was paid, and
/// whether for exactly its amount and asset.
pub open spec fn attests(event: Event, row: CorrelationModel, amount_matched: bool) -> bool {
    match event {
        Event::Session(Ok(session)) => verification::judged_session(
            session,
            row,
        ) matches PulledModel::Paid { amount_matched: matched, payment_reference: _ } && matched
            == amount_matched,
        Event::Order(Ok(order)) => text::text_opt(order.status) == Some("COMPLETED"@)
            && (verification::judged_order(order, row) matches PulledModel::Paid {
            amount_matched: matched,
            payment_reference: _,
        } && matched == amount_matched),
        _ => false,
    }
}

/// Whether an action changes the state of a row.
pub open spec fn changes_state(action: ActionModel) -> bool {
    match action {
        ActionModel::MarkPaid { .. } => true,
        ActionModel::MarkConfirmed { .. } => true,
        ActionModel::MarkReversed { .. } => true,
        _ => false,
    }
}

/// A pull records a payment only for its own row, only while the row is created,
/// and only when the processor's read API just attested it. It never confirms
/// or reverses.
pub proof fn payment_is_pulled(pull: PullModel, event: Event)
    ensures
        verification::pull_step(pull, event) matches TurnModel::Perform(next, action) ==> {
            &&& next.row == pull.row
            &&& next.now == pull.now
            &&& changes_state(action) ==> (action matches ActionModel::MarkPaid {
                creator,
                bundle_id,
                amount_matched,
                payment_intent: _,
                paid_at,
            } && creator == pull.row.creator && bundle_id == pull.row.bundle_id && paid_at
                == pull.now && pull.row.state == CorrelationState::Created && attests(
                event,
                pull.row,
                amount_matched,
            ))
        },
{
}

/// A Stripe payment is a session whose payment status is `paid`; it matches only
/// with the row's exact amount, in the row's asset.
pub proof fn stripe_payment_is_a_paid_session(pull: PullModel, session: CheckoutSession)
    ensures
        verification::pull_step(pull, Event::Session(Ok(session))) matches TurnModel::Perform(
            _,
            ActionModel::MarkPaid {
                creator: _,
                bundle_id: _,
                amount_matched,
                payment_intent,
                paid_at: _,
            },
        ) ==> {
            &&& text::text_opt(session.payment_status) == Some("paid"@)
            &&& payment_intent == text::text_opt(session.payment_intent)
            &&& amount_matched ==> store::integer(session.amount_total) == Some(
                pull.row.amount_minor,
            )
            &&& amount_matched ==> (session.currency matches Some(currency) && text::lower(
                currency@,
            ) == text::lower(pull.row.asset))
        },
{
}

/// A PayPal payment is a capture whose own status is `COMPLETED`, in an order
/// that is itself `COMPLETED`. It matches only with the row's exact amount, in
/// the row's asset.
pub proof fn paypal_payment_is_a_completed_capture(pull: PullModel, order: Order)
    ensures
        verification::pull_step(pull, Event::Order(Ok(order))) matches TurnModel::Perform(
            _,
            ActionModel::MarkPaid {
                creator: _,
                bundle_id: _,
                amount_matched,
                payment_intent,
                paid_at: _,
            },
        ) ==> {
            &&& text::text_opt(order.status) == Some("COMPLETED"@)
            &&& exists|capture: Capture| #[trigger]
                paypal::all_captures(order.purchase_units@).contains(capture)
                    && paypal::is_completed(capture) && payment_intent == Some(capture.id@)
                    && amount_matched == verification::capture_matches(capture, pull.row)
        },
{
    let captures = paypal::all_captures(order.purchase_units@);
    paypal::lemma_first_is_completed(captures);
    match paypal::first_completed(captures) {
        Some(capture) => {
            assert(captures.contains(capture));
        },
        None => {},
    }
}

/// An order that is still approved is captured, once per order, and the order
/// that the capture answers with is judged like one that was read: only a
/// completed one is payment.
pub proof fn approved_order_is_captured(pull: PullModel, approved: Order, captured: Order)
    requires
        pull.stage == PullStage::Order,
        pull.row.session_id is Some,
        text::text_opt(approved.status) == Some("APPROVED"@),
        text::text_opt(captured.status) != Some("APPROVED"@),
    ensures
        ({
            let order_id = pull.row.session_id->0;
            &&& verification::pull_step(pull, Event::Order(Ok(approved))) matches TurnModel::Perform(
                next,
                action,
            )
            &&& action == (ActionModel::CaptureOrder {
                order_id,
                request_id: verification::capture_key(order_id),
            })
            &&& match (
                verification::pull_step(next, Event::Order(Ok(captured))),
                verification::pull_step(pull, Event::Order(Ok(captured))),
            ) {
                (TurnModel::Done(a), TurnModel::Done(b)) => a == b,
                (TurnModel::Perform(a, x), TurnModel::Perform(b, y)) => a == b && x == y,
                _ => false,
            }
        }),
{
    reveal_strlit("APPROVED");
    reveal_strlit("COMPLETED");
    assert("APPROVED"@.len() != "COMPLETED"@.len());
}

/// A pull starts with a read, on the processor that the row is bound to.
pub proof fn pull_starts_with_a_read(
    processors: verification::Processors,
    row: CorrelationModel,
    now: int,
)
    ensures
        verification::pull_start(processors, row, now) matches TurnModel::Perform(pull, action) ==> {
            &&& pull.row == row
            &&& pull.now == now
            &&& verification::bound(row) matches Some(kind)
            &&& processors.has(kind)
            &&& match kind {
                ProcessorKind::Stripe => action is RetrieveSession,
                ProcessorKind::Paypal => action is RetrieveOrder,
            }
        },
        verification::pull_start(processors, row, now) matches TurnModel::Done(outcome)
            ==> !(outcome is Paid),
{
}

/// What holds of every pull under way: a payment is recorded only of a created
/// row.
pub open spec fn pull_ok(pull: PullModel) -> bool {
    pull.stage is Recording ==> pull.row.state == CorrelationState::Created
}

/// What holds of every promotion under way: its row was paid for the right
/// amount, and rested for the settlement delay.
pub open spec fn promotion_ok(promotion: PromotionModel, settlement_delay: int) -> bool {
    match promotion.stage {
        PromotionStageModel::Pulling(pull) => {
            &&& pull_ok(pull)
            &&& pull.row.creator == promotion.creator
            &&& pull.row.bundle_id == promotion.bundle_id
            &&& pull.now == promotion.now
            &&& pull.row.state == CorrelationState::Paid
            &&& pull.row.amount_matched
            &&& state::delay_elapsed(pull.row, promotion.now, settlement_delay)
        },
        PromotionStageModel::Confirming => true,
    }
}

/// What holds of every status request under way.
pub open spec fn status_ok(app: AppState, check: StatusCheckModel) -> bool {
    match check {
        StatusCheckModel::Promoting { fallback, promotion } => fallback.status
            == StatusKind::Detected && promotion_ok(promotion, app.settlement_delay@),
        _ => true,
    }
}

/// Every status request starts sound and stays sound.
pub proof fn status_stays_ok(
    app: AppState,
    headers: Seq<(Seq<char>, Seq<u8>)>,
    raw_body: Seq<u8>,
    check: StatusCheckModel,
    event: Event,
    now: int,
)
    requires
        status_ok(app, check),
    ensures
        status::status_start(app, headers, raw_body) matches TurnModel::Perform(next, _)
            ==> status_ok(app, next),
        status::status_step(app, check, event, now) matches TurnModel::Perform(next, _)
            ==> status_ok(app, next),
{
}

/// A status request confirms a row only if the row was paid for the right
/// amount, the settlement delay has elapsed since, and the processor's read API
/// just attested that it is still paid for the right amount.
pub proof fn status_confirms_after_fresh_pull(
    app: AppState,
    check: StatusCheckModel,
    event: Event,
    now: int,
)
    requires
        status_ok(app, check),
    ensures
        status::status_step(app, check, event, now) matches TurnModel::Perform(
            _,
            ActionModel::MarkConfirmed { creator, bundle_id, confirmed_at },
        ) ==> {
            &&& check matches StatusCheckModel::Promoting { fallback: _, promotion }
            &&& promotion.stage matches PromotionStageModel::Pulling(pull)
            &&& pull.row.creator == creator
            &&& pull.row.bundle_id == bundle_id
            &&& pull.row.state == CorrelationState::Paid
            &&& pull.row.amount_matched
            &&& state::delay_elapsed(pull.row, confirmed_at, app.settlement_delay@)
            &&& attests(event, pull.row, true)
        },
{
}

/// A status request is answered `confirmed` only if the row was read confirmed,
/// or its confirmation was just recorded.
pub proof fn confirmed_status_is_recorded(
    app: AppState,
    check: StatusCheckModel,
    event: Event,
    now: int,
)
    requires
        status_ok(app, check),
    ensures
        status::status_step(app, check, event, now) matches TurnModel::Done(
            ReplyModel::Status(reply),
        ) && reply.status == StatusKind::Confirmed ==> {
            ||| event matches Event::Row(Ok(Some(row))) && row.state == CorrelationState::Confirmed
            ||| (check matches StatusCheckModel::Refreshing { row, now: _ } && row.state
                == CorrelationState::Confirmed)
            ||| (check matches StatusCheckModel::Promoting { fallback: _, promotion }
                && promotion.stage is Confirming && event matches Event::Marked(Ok(_)))
        },
{
}

/// A status request records a payment only of the row that it pulled, and only
/// when the processor's read API just attested it. It never reverses a row.
pub proof fn status_records_only_pulled_payments(
    app: AppState,
    check: StatusCheckModel,
    event: Event,
    now: int,
)
    requires
        status_ok(app, check),
    ensures
        status::status_step(app, check, event, now) matches TurnModel::Perform(_, action) ==> {
            &&& !(action is MarkReversed)
            &&& action is MarkPaid ==> (check matches StatusCheckModel::Pulling {
                request: _,
                row: _,
                now: _,
                pull,
            } && records_pull(pull, event, action))
        },
{
}

/// Whether an action records the payment of a created row that an answer
/// attests.
pub open spec fn records_pull(pull: PullModel, event: Event, action: ActionModel) -> bool {
    &&& action matches ActionModel::MarkPaid {
        creator,
        bundle_id,
        amount_matched,
        payment_intent: _,
        paid_at,
    }
    &&& creator == pull.row.creator
    &&& bundle_id == pull.row.bundle_id
    &&& paid_at == pull.now
    &&& pull.row.state == CorrelationState::Created
    &&& attests(event, pull.row, amount_matched)
}

/// The poll records a payment only of the row that it pulled, and only when the
/// processor's read API just attested it. It never reverses a row.
pub proof fn poll_records_only_pulled_payments(
    app: AppState,
    poll: PollModel,
    event: Event,
    now: int,
)
    ensures
        worker::poll_step(app, poll, event, now) matches TurnModel::Perform(_, action) ==> {
            &&& !(action is MarkReversed)
            &&& action is MarkPaid ==> (poll matches PollModel::Pulling {
                creator: _,
                bundle_id: _,
                now: _,
                pull,
                rest: _,
            } && records_pull(pull, event, action))
        },
{
    lemma_poll_next(app, poll_rest(poll, event), now);
}

/// Invoices and checkouts never change the state of a row.
pub proof fn minting_never_settles(
    app: AppState,
    invoice: InvoiceModel,
    checkout: CheckoutModel,
    event: Event,
    now: int,
)
    ensures
        invoice::invoice_step(app, invoice, event, now) matches TurnModel::Perform(_, action)
            ==> !changes_state(action),
        checkout::checkout_step(app, checkout, event, now) matches TurnModel::Perform(_, action)
            ==> !changes_state(action),
{
}

/// A round of the poll skips no row: the next row that is pulled is the first
/// one that can be, and the rows behind it are left for the rest of the round.
pub proof fn poll_skips_nothing(app: AppState, rows: Seq<CorrelationModel>, now: int)
    ensures
        match worker::poll_next(app, rows, now) {
            TurnModel::Done(_) => forall|i: int|
                0 <= i < rows.len() ==> verification::pull_start(
                    app.processors,
                    #[trigger] rows[i],
                    now,
                ) is Done,
            TurnModel::Perform(next, action) => exists|i: int|
                0 <= i < rows.len() && first_pull(app, #[trigger] rows[i], now, next, action)
                    && poll_rest_of(next) == rows.skip(i + 1) && forall|j: int|
                    0 <= j < i ==> verification::pull_start(
                        app.processors,
                        #[trigger] rows[j],
                        now,
                    ) is Done,
        },
    decreases rows.len(),
{
    if rows.len() > 0 {
        if verification::pull_start(app.processors, rows[0], now) is Perform {
            let next = worker::poll_next(app, rows, now)->Perform_0;
            let action = worker::poll_next(app, rows, now)->Perform_1;
            assert(first_pull(app, rows[0], now, next, action));
        } else {
            let behind = rows.skip(1);
            poll_skips_nothing(app, behind, now);
            match worker::poll_next(app, behind, now) {
                TurnModel::Done(_) => {
                    assert forall|i: int| 0 <= i < rows.len() implies verification::pull_start(
                        app.processors,
                        #[trigger] rows[i],
                        now,
                    ) is Done by {
                        if i > 0 {
                            assert(behind[i - 1] == rows[i]);
                        }
                    }
                },
                TurnModel::Perform(next, action) => {
                    let i = choose|i: int|
                        0 <= i < behind.len() && first_pull(
                            app,
                            #[trigger] behind[i],
                            now,
                            next,
                            action,
                        ) && poll_rest_of(next) == behind.skip(i + 1) && forall|j: int|
                            0 <= j < i ==> verification::pull_start(
                                app.processors,
                                #[trigger] behind[j],
                                now,
                            ) is Done;
                    assert(behind.skip(i + 1) =~= rows.skip(i + 2));
                    assert(rows[i + 1] == behind[i]);
                    assert forall|j: int| 0 <= j < i + 1 implies verification::pull_start(
                        app.processors,
                        #[trigger] rows[j],
                        now,
                    ) is Done by {
                        if j > 0 {
                            assert(behind[j - 1] == rows[j]);
                        }
                    }
                },
            }
        }
    }
}

/// Whether a flow and its action are the pull of a row.
pub open spec fn first_pull(
    app: AppState,
    row: CorrelationModel,
    now: int,
    next: PollModel,
    action: ActionModel,
) -> bool {
    &&& next matches PollModel::Pulling { creator, bundle_id, now: started_at, pull, rest: _ }
    &&& creator == row.creator
    &&& bundle_id == row.bundle_id
    &&& started_at == now
    &&& verification::pull_start(app.processors, row, now) == TurnModel::<
        PullModel,
        PullOutcome,
    >::Perform(pull, action)
}

/// The rows that a round of the poll still has before it.
pub open spec fn poll_rest_of(poll: PollModel) -> Seq<CorrelationModel> {
    match poll {
        PollModel::Listing => Seq::empty(),
        PollModel::Pulling { creator: _, bundle_id: _, now: _, pull: _, rest } => rest,
        PollModel::Refreshing { now: _, rest } => rest,
        PollModel::Confirming { rest } => rest,
    }
}

/// A round goes on until every listed row had its turn: whatever is answered,
/// it keeps the rows before it, or turns to the next of them.
pub proof fn poll_keeps_the_rest(app: AppState, poll: PollModel, event: Event, now: int)
    requires
        !(poll is Listing),
    ensures
        worker::poll_step(app, poll, event, now) == worker::poll_next(app, poll_rest_of(poll), now)
            || (worker::poll_step(app, poll, event, now) matches TurnModel::Perform(next, _)
            && poll_rest_of(next) == poll_rest_of(poll)),
{
}

/// Detection does not depend on webhooks: a status request on a row that awaits
/// its payment asks the processor, and when the answer says paid, the payment
/// is recorded, the row is read again, and the caller is told that it was
/// detected.
pub proof fn status_detects_payment(
    app: AppState,
    request: StatusRequestModel,
    signature: Option<Seq<char>>,
    raw_body: Seq<u8>,
    row: Correlation,
    answer: Event,
    matched: bool,
    refreshed: Correlation,
    now: int,
    later: int,
)
    requires
        row.asset@ != "BTC"@,
        row.state == CorrelationState::Created,
        row.session_id is Some,
        verification::bound(row@) matches Some(kind) && app.processors.has(kind) && match kind {
            ProcessorKind::Stripe => answer is Session,
            ProcessorKind::Paypal => answer matches Event::Order(Ok(order)) && text::text_opt(
                order.status,
            ) == Some("COMPLETED"@),
        },
        attests(answer, row@, matched),
        refreshed.state == CorrelationState::Paid,
        refreshed.amount_matched == matched,
        store::instant(refreshed.paid_at) == Some(now),
        app.settlement_delay@ > 0,
    ensures
        ({
            let asked = status::status_step(
                app,
                StatusCheckModel::Row { request, signature, raw_body },
                Event::Row(Ok(Some(row))),
                now,
            );
            &&& asked matches TurnModel::Perform(pulling, question)
            &&& question is RetrieveSession || question is RetrieveOrder
            &&& status::status_step(app, pulling, answer, later) matches TurnModel::Perform(
                recording,
                record,
            )
            &&& pulling matches StatusCheckModel::Pulling { request: _, row: _, now: _, pull }
            &&& records_pull(pull, answer, record)
            &&& status::status_step(
                app,
                recording,
                Event::Marked(Ok(())),
                later,
            ) matches TurnModel::Perform(refreshing, ActionModel::Get { creator, bundle_id })
            &&& creator == request.creator
            &&& bundle_id == request.bundle_id
            &&& status::status_step(app, refreshing, Event::Row(Ok(Some(refreshed))), later)
                == TurnModel::<StatusCheckModel, ReplyModel>::Done(
                ReplyModel::Status(state::detected(matched)),
            )
        }),
{
}

/// Once the settlement delay has elapsed, a status request on a paid row asks
/// the processor afresh, and when the answer still says paid for the right
/// amount, the confirmation is recorded and the caller is told. Any other
/// answer leaves the row detected.
pub proof fn status_confirms_payment(
    app: AppState,
    request: StatusRequestModel,
    signature: Option<Seq<char>>,
    raw_body: Seq<u8>,
    row: Correlation,
    answer: Event,
    now: int,
    later: int,
)
    requires
        row.asset@ != "BTC"@,
        row.state == CorrelationState::Paid,
        row.amount_matched,
        row.session_id is Some,
        state::delay_elapsed(row@, now, app.settlement_delay@),
        verification::bound(row@) matches Some(kind) && app.processors.has(kind) && match kind {
            ProcessorKind::Stripe => answer is Session,
            ProcessorKind::Paypal => answer matches Event::Order(Ok(order)) && text::text_opt(
                order.status,
            ) == Some("COMPLETED"@),
        },
    ensures
        ({
            let asked = status::status_step(
                app,
                StatusCheckModel::Row { request, signature, raw_body },
                Event::Row(Ok(Some(row))),
                now,
            );
            let confirm = ActionModel::MarkConfirmed {
                creator: row.creator@,
                bundle_id: row.bundle_id@,
                confirmed_at: now,
            };
            &&& asked matches TurnModel::Perform(pulling, question)
            &&& question is RetrieveSession || question is RetrieveOrder
            &&& if attests(answer, row@, true) {
                &&& status::status_step(app, pulling, answer, later) matches TurnModel::Perform(
                    confirming,
                    action,
                )
                &&& action == confirm
                &&& status::status_step(app, confirming, Event::Marked(Ok(())), later)
                    == TurnModel::<StatusCheckModel, ReplyModel>::Done(
                    ReplyModel::Status(state::settled(app.synthesized_confirmations)),
                )
            } else {
                status::status_step(app, pulling, answer, later) == TurnModel::<
                    StatusCheckModel,
                    ReplyModel,
                >::Done(ReplyModel::Status(state::detected(true)))
            }
        }),
{
}

/// The poll looks at a row again only after a pull that found it paid for the
/// right amount: attested just now, or recorded just now after it was attested.
pub proof fn poll_refreshes_after_matched_pull(
    app: AppState,
    poll: PollModel,
    event: Event,
    now: int,
)
    ensures
        worker::poll_step(app, poll, event, now) matches TurnModel::Perform(
            PollModel::Refreshing { now: pulled_at, rest: _ },
            action,
        ) ==> {
            &&& poll matches PollModel::Pulling {
                creator,
                bundle_id,
                now: started_at,
                pull,
                rest: _,
            }
            &&& action == (ActionModel::Get { creator, bundle_id })
            &&& pulled_at == started_at
            &&& attests(event, pull.row, true) || (pull.stage == PullStage::Recording {
                amount_matched: true,
            } && event matches Event::Marked(Ok(_)))
        },
{
    lemma_poll_next(app, poll_rest(poll, event), now);
}

/// The poll confirms a row only if it was just read as paid and the settlement
/// delay had elapsed when it was pulled.
pub proof fn poll_confirms_after_delay(app: AppState, poll: PollModel, event: Event, now: int)
    ensures
        worker::poll_step(app, poll, event, now) matches TurnModel::Perform(
            _,
            ActionModel::MarkConfirmed { creator, bundle_id, confirmed_at },
        ) ==> {
            &&& poll matches PollModel::Refreshing { now: pulled_at, rest: _ }
            &&& confirmed_at == pulled_at
            &&& event matches Event::Row(Ok(Some(row)))
            &&& row.creator@ == creator
            &&& row.bundle_id@ == bundle_id
            &&& row.state == CorrelationState::Paid
            &&& state::delay_elapsed(row@, pulled_at, app.settlement_delay@)
        },
{
    lemma_poll_next(app, poll_rest(poll, event), now);
}

/// The rows that a round of the poll turns to after an event.
spec fn poll_rest(poll: PollModel, event: Event) -> Seq<CorrelationModel> {
    match (poll, event) {
        (PollModel::Listing, Event::Open(Ok(open))) => worker::rows_of(open@),
        _ => poll_rest_of(poll),
    }
}

proof fn lemma_poll_next(app: AppState, rows: Seq<CorrelationModel>, now: int)
    ensures
        worker::poll_next(app, rows, now) matches TurnModel::Perform(next, action) ==> {
            &&& next is Pulling
            &&& action is RetrieveSession || action is RetrieveOrder
        },
    decreases rows.len(),
{
    if rows.len() > 0 {
        lemma_poll_next(app, rows.skip(1), now);
    }
}

/// A webhook only schedules reads. It records a payment only inside a pull that
/// the processor's read API attested, never confirms, and reverses only a row
/// that was looked up for a verified reversal.
pub proof fn webhook_is_only_a_hint(app: AppState, webhook: WebhookModel, event: Event, now: int)
    ensures
        webhooks::webhook_step(app, webhook, event, now) matches TurnModel::Perform(next, action)
            ==> {
            &&& !(action is MarkConfirmed)
            &&& action matches ActionModel::MarkPaid {
                creator,
                bundle_id,
                amount_matched,
                payment_intent: _,
                paid_at: _,
            } ==> (webhook matches WebhookModel::Pulling(pull) && pull.row.creator == creator
                && pull.row.bundle_id == bundle_id && attests(event, pull.row, amount_matched))
            &&& action matches ActionModel::MarkReversed { creator, bundle_id } ==> webhook is Finding && (
            event matches Event::Row(Ok(Some(row))) && row.creator@ == creator && row.bundle_id@
                == bundle_id)
        },
{
}

/// A webhook looks up a row to reverse only after a pull that corroborates the
/// reversal, and under what that pull names: the payment intent of a charge
/// that was refunded or disputed, the reference or the id of a capture in a
/// reversal status, or one after the other the captures of a dispute.
pub proof fn reversal_is_corroborated(
    app: AppState,
    webhook: WebhookModel,
    event: Event,
    now: int,
)
    ensures
        webhooks::webhook_step(app, webhook, event, now) matches TurnModel::Perform(
            WebhookModel::Finding(pending),
            action,
        ) ==> match webhook {
            WebhookModel::Charge => {
                &&& event matches Event::Charge(Ok(charge))
                &&& charge.refunded || charge.disputed
                &&& charge.payment_intent matches Some(intent)
                &&& action == (ActionModel::FindByPaymentIntent { reference: intent@ })
                &&& pending.len() == 0
            },
            WebhookModel::Capture => {
                &&& event matches Event::Capture(Ok(capture))
                &&& http::is_reversal(text::text_opt(capture.status))
                &&& pending.len() == 0
                &&& match action {
                    ActionModel::Get { creator, bundle_id } => capture.custom_id matches Some(
                        reference,
                    ) && text::split_once(reference@, '_') == Some((creator, bundle_id)),
                    ActionModel::FindByPaymentIntent { reference } => reference == capture.id@,
                    _ => false,
                }
            },
            WebhookModel::Dispute => {
                &&& event matches Event::Dispute(Ok(dispute))
                &&& looks_up(
                    webhooks::disputed_captures(dispute.disputed_transactions@),
                    pending,
                    action,
                )
            },
            WebhookModel::Finding(before) => looks_up(before, pending, action),
            WebhookModel::Marking(before) => looks_up(before, pending, action),
            _ => false,
        },
{
}

/// Whether an action looks up the first of the captures, and the others are left.
pub open spec fn looks_up(
    captures: Seq<Seq<char>>,
    pending: Seq<Seq<char>>,
    action: ActionModel,
) -> bool {
    &&& captures.len() > 0
    &&& action == (ActionModel::FindByPaymentIntent { reference: captures[0] })
    &&& pending == captures.skip(1)
}

/// A delivery whose event id is known is answered as a duplicate, and nothing
/// more is done about it.
pub proof fn duplicate_delivery_does_nothing(
    app: AppState,
    store: StoreModel,
    hint: HintModel,
    event_id: Seq<char>,
    event_type: Seq<char>,
    event: Event,
    now: int,
)
    requires
        store.events.contains(event_id),
        memory::answers(store, ActionModel::RecordWebhookEvent { event_id, event_type }, event),
    ensures
        webhooks::webhook_step(app, WebhookModel::Recording(hint), event, now)
            == TurnModel::<WebhookModel, ReplyModel>::Done(
            ReplyModel::Received { duplicate: true },
        ),
        memory::stored(store, ActionModel::RecordWebhookEvent { event_id, event_type }) == store,
{
    assert(store.events.insert(event_id) =~= store.events);
}

/// Webhooks fail closed: without their processor or its webhook secret or id
/// they are answered as unavailable, and a delivery that is not attested goes
/// nowhere.
pub proof fn webhooks_fail_closed(
    app: AppState,
    headers: Seq<(Seq<char>, Seq<u8>)>,
    raw_body: Seq<u8>,
    event: Event,
    now: int,
)
    ensures
        !(app.processors.stripe matches Some(stripe) && stripe.webhook() is Some)
            ==> webhooks::stripe_webhook_start(app, headers, raw_body, now)
            == webhooks::webhook_fault(ApiError::Unavailable),
        !(app.processors.paypal matches Some(paypal) && paypal.webhook() is Some)
            ==> webhooks::paypal_webhook_start(app, headers, raw_body) == webhooks::webhook_fault(
            ApiError::Unavailable,
        ),
        webhooks::stripe_webhook_start(app, headers, raw_body, now) is Perform
            ==> webhooks::stripe_accepted(
            app,
            auth::header_text(headers, "stripe-signature"@),
            raw_body,
            now,
        ),
        webhooks::webhook_step(app, WebhookModel::Verifying(raw_body), event, now) is Perform
            ==> event matches Event::Attested(Ok(true)),
{
}

/// A Bitcoin invoice goes on with the body and the signature that came, and
/// nothing is stored for it.
pub proof fn bitcoin_invoice_passes_verbatim(
    app: AppState,
    headers: Seq<(Seq<char>, Seq<u8>)>,
    raw_body: Seq<u8>,
    criterion: LockCriterion,
    now: int,
)
    requires
        criterion.asset@ == "BTC"@,
    ensures
        invoice::invoice_start(app, headers, raw_body) matches TurnModel::Perform(flow, action)
            ==> {
            &&& action is FetchCriterion
            &&& auth::header_text(headers, auth::SIGNATURE_HEADER@) matches Some(signature)
            &&& invoice::invoice_step(app, flow, Event::Criterion(Ok(criterion)), now)
                == TurnModel::<InvoiceModel, ReplyModel>::Done(
                ReplyModel::Forward { path: "invoices"@, signature, body: raw_body },
            )
        },
{
}

/// A fiat invoice is never forwarded.
pub proof fn fiat_invoice_stays(
    app: AppState,
    flow: InvoiceModel,
    event: Event,
    now: int,
)
    requires
        event matches Event::Criterion(Ok(criterion)) ==> criterion.asset@ != "BTC"@,
    ensures
        !(invoice::invoice_step(app, flow, event, now) matches TurnModel::Done(
            ReplyModel::Forward { .. },
        )),
{
}

/// A status request for an identity that the store does not know, or that is a
/// Bitcoin invoice, goes on with the body and the signature that came.
pub proof fn unknown_status_passes_verbatim(
    app: AppState,
    headers: Seq<(Seq<char>, Seq<u8>)>,
    raw_body: Seq<u8>,
    found: Option<Correlation>,
    now: int,
)
    requires
        found matches Some(row) ==> row.asset@ == "BTC"@,
    ensures
        status::status_start(app, headers, raw_body) matches TurnModel::Perform(flow, action) ==> {
            &&& action is Get
            &&& auth::header_text(headers, auth::SIGNATURE_HEADER@) matches Some(signature)
            &&& status::status_step(app, flow, Event::Row(Ok(found)), now)
                == TurnModel::<StatusCheckModel, ReplyModel>::Done(
                ReplyModel::Forward { path: "transactions/status"@, signature, body: raw_body },
            )
        },
{
}

/// A request without a valid signature of the Lock Server is refused before
/// anything is done.
pub proof fn unsigned_requests_are_refused(
    app: AppState,
    headers: Seq<(Seq<char>, Seq<u8>)>,
    raw_body: Seq<u8>,
)
    requires
        !auth::authentic(app.trusted_key@, headers, raw_body),
    ensures
        invoice::invoice_start(app, headers, raw_body) == invoice::invoice_fault(
            ApiError::InvalidSignature,
        ),
        status::status_start(app, headers, raw_body) == status::status_fault(
            ApiError::InvalidSignature,
        ),
{
}

/// Without any processor, a fiat invoice is refused before it is stored, and so
/// is every checkout request.
pub proof fn no_processor_fails_closed(
    app: AppState,
    flow: InvoiceModel,
    event: Event,
    now: int,
    admitted: bool,
    body: Option<CheckoutSessionRequest>,
)
    requires
        !app.processors.any(),
    ensures
        flow is Criterion ==> !(invoice::invoice_step(app, flow, event, now) is Perform),
        checkout::checkout_start(app, admitted, body) is Done,
{
}

/// An exact replay of an invoice whose session exists is answered at once: the
/// store stays as it is, and nothing is minted.
pub proof fn replayed_invoice_is_quiet(
    app: AppState,
    store: StoreModel,
    invoice: FiatInvoiceModel,
    new: NewCorrelationModel,
    inserted: Event,
    read: Event,
    now: int,
)
    requires
        invoice.creator == new.creator,
        invoice.bundle_id == new.bundle_id,
        memory::row_at(store, new.creator, new.bundle_id) matches Some(row) && store::terms(row)
            == new && row.session_id is Some,
        memory::answers(store, ActionModel::Insert(new), inserted),
        memory::answers(
            store,
            ActionModel::Get { creator: new.creator, bundle_id: new.bundle_id },
            read,
        ),
    ensures
        memory::stored(store, ActionModel::Insert(new)) == store,
        invoice::invoice_step(app, InvoiceModel::Inserting(invoice), inserted, now)
            == TurnModel::<InvoiceModel, ReplyModel>::Perform(
            InvoiceModel::Replaying(invoice),
            ActionModel::Get { creator: new.creator, bundle_id: new.bundle_id },
        ),
        invoice::invoice_step(app, InvoiceModel::Replaying(invoice), read, now)
            == TurnModel::<InvoiceModel, ReplyModel>::Done(ReplyModel::NoContent),
{
}

/// An invoice under a known identity with other terms conflicts, and the store
/// stays as it is.
pub proof fn changed_invoice_conflicts(
    app: AppState,
    store: StoreModel,
    invoice: FiatInvoiceModel,
    new: NewCorrelationModel,
    inserted: Event,
    now: int,
)
    requires
        memory::row_at(store, new.creator, new.bundle_id) matches Some(row) && store::terms(row)
            != new,
        memory::answers(store, ActionModel::Insert(new), inserted),
    ensures
        memory::stored(store, ActionModel::Insert(new)) == store,
        invoice::invoice_step(app, InvoiceModel::Inserting(invoice), inserted, now)
            == invoice::invoice_fault(ApiError::InvoiceConflict),
{
}

/// With both processors configured a new invoice is stored and answered, and
/// nothing is minted; with one, its session is minted on that one.
pub proof fn invoice_mints_only_without_a_choice(
    app: AppState,
    invoice: FiatInvoiceModel,
    now: int,
)
    ensures
        ({
            let turn = invoice::invoice_step(
                app,
                InvoiceModel::Inserting(invoice),
                Event::Inserted(Ok(store::InsertOutcome::Inserted)),
                now,
            );
            match app.processors.sole() {
                None => turn == TurnModel::<InvoiceModel, ReplyModel>::Done(
                    ReplyModel::NoContent,
                ),
                Some(kind) => turn matches TurnModel::Perform(InvoiceModel::Minting(mint), action)
                    && mint.task.kind == kind && mint.task.attempt == 1 && match kind {
                    ProcessorKind::Stripe => action is CreateCheckoutSession,
                    ProcessorKind::Paypal => action is CreateOrder,
                },
            }
        }),
{
}

/// A checkout is created with the reference and the idempotency key of its task,
/// and its redirect targets derive from the task's return origin.
pub proof fn minted_checkout_belongs_to_its_task(
    app: AppState,
    task: MintTaskModel,
    asset: Seq<char>,
    amount_minor: int,
)
    ensures
        mint::mint_start(app, task, asset, amount_minor) matches TurnModel::Perform(mint, action)
            ==> {
            let order = match action {
                ActionModel::CreateCheckoutSession(order) => order,
                ActionModel::CreateOrder(order) => order,
                _ => arbitrary(),
            };
            &&& mint.task == task
            &&& match task.kind {
                ProcessorKind::Stripe => action is CreateCheckoutSession,
                ProcessorKind::Paypal => action is CreateOrder,
            }
            &&& order.reference == stripe::reference_of(task.creator, task.bundle_id)
            &&& order.idempotency_key == stripe::session_key(
                task.creator,
                task.bundle_id,
                task.attempt,
            )
            &&& order.amount_minor == amount_minor
            &&& (order.success_url, order.cancel_url) == http::redirect_targets(
                app,
                task.return_origin,
            )
        },
{
}

/// The reference that a checkout carries leads a webhook back to the
/// correlation that it was created for, if the creator holds no underscore.
pub proof fn webhook_finds_its_correlation(creator: Seq<char>, bundle_id: Seq<char>)
    requires
        !creator.contains('_'),
    ensures
        webhooks::referenced(Some(stripe::reference_of(creator, bundle_id))) == (
        HintModel::Payment { creator, bundle_id }),
{
    stripe::reference_round_trip(creator, bundle_id);
}

/// A session is recorded with the processor, the attempt and the return origin
/// that it was minted for, and what the buyer is answered is what was recorded.
pub proof fn minted_session_is_the_recorded_one(mint: MintModel, event: Event, now: int)
    ensures
        mint::mint_step(mint, event, now) matches TurnModel::Perform(
            next,
            ActionModel::SetSession { creator, bundle_id, session },
        ) ==> {
            &&& creator == mint.task.creator
            &&& bundle_id == mint.task.bundle_id
            &&& session.processor == verification::kind_text(mint.task.kind)
            &&& session.session_attempt == mint.task.attempt
            &&& session.return_origin == mint.task.return_origin
            &&& next.task == mint.task
            &&& next.stage matches MintStageModel::Persisting(response)
            &&& response.checkout_url == session.checkout_url
            &&& response.expires_at == session.checkout_expires_at
            &&& response.processor == session.processor
            &&& mint::mint_step(next, Event::SessionSet(Ok(true)), now)
                == TurnModel::<MintModel, MintedModel>::Done(MintedModel::Session(response))
        },
{
}

/// A session whose record was refused is never answered: the buyer is answered
/// the session that the store holds, while it is live, or a conflict.
pub proof fn lost_race_serves_the_recorded_session(
    mint: MintModel,
    refused: Event,
    read: Event,
    now: int,
    later: int,
)
    requires
        mint.stage is Persisting,
        refused matches Event::SessionSet(Ok(false)),
    ensures
        mint::mint_step(mint, refused, now) matches TurnModel::Perform(next, action) && {
            &&& action == (ActionModel::Get {
                creator: mint.task.creator,
                bundle_id: mint.task.bundle_id,
            })
            &&& mint::mint_step(next, read, later) matches TurnModel::Done(
                MintedModel::Session(session),
            ) ==> (read matches Event::Row(Ok(Some(row))) && row.state == CorrelationState::Created
                && http::live_session(row@, later) == Some(session))
        },
{
}

/// A checkout request on a bound row never goes to another processor: naming
/// one conflicts, and a mint stays on the bound processor.
pub proof fn processor_binding_is_kept(
    app: AppState,
    choice: ChoiceModel,
    row: CorrelationModel,
    now: int,
)
    requires
        row.state == CorrelationState::Created,
    ensures
        verification::bound(row) matches Some(bound) ==> {
            &&& choice.requested is Some && choice.requested != Some(bound)
                ==> checkout::checkout_known(app, choice, row, now) == checkout::checkout_fault(
                ApiError::InvoiceConflict,
            )
            &&& checkout::checkout_known(app, choice, row, now) matches TurnModel::Perform(
                CheckoutModel::Minting(mint),
                _,
            ) ==> mint.task.kind == bound
        },
{
}

/// A recorded session binds its row to the session's processor, and leaves a row
/// that was bound before with the processor it had.
pub proof fn recorded_session_keeps_the_binding(
    row: CorrelationModel,
    session: SessionRecordModel,
    kind: ProcessorKind,
)
    requires
        store::session_fits(row, session),
    ensures
        session.processor == verification::kind_text(kind) ==> verification::bound(
            store::with_session(row, session),
        ) == Some(kind),
        verification::bound(row) == Some(kind) ==> verification::bound(
            store::with_session(row, session),
        ) == Some(kind),
{
    verification::kind_round_trip(kind, session.processor);
}

/// A checkout request on a row with a bound return origin never leads to
/// another one: naming one conflicts, and a mint stays with the bound origin.
pub proof fn origin_binding_is_kept(
    app: AppState,
    choice: ChoiceModel,
    row: CorrelationModel,
    now: int,
)
    requires
        row.state == CorrelationState::Created,
        row.return_origin is Some,
    ensures
        choice.requested_origin is Some && choice.requested_origin != row.return_origin
            ==> checkout::checkout_known(app, choice, row, now) == checkout::checkout_fault(
            ApiError::InvoiceConflict,
        ),
        checkout::checkout_known(app, choice, row, now) matches TurnModel::Perform(
            CheckoutModel::Minting(mint),
            _,
        ) ==> mint.task.return_origin == row.return_origin,
{
}

/// While a session is live, every checkout request that does not ask for
/// something else is answered with it, and nothing is done.
pub proof fn live_checkout_is_idempotent(
    app: AppState,
    choice: ChoiceModel,
    row: CorrelationModel,
    now: int,
)
    requires
        row.state == CorrelationState::Created,
        http::live_session(row, now) is Some,
        choice.requested is None || choice.requested == verification::bound(row),
        choice.requested_origin is None || choice.requested_origin == row.return_origin,
    ensures
        checkout::checkout_known(app, choice, row, now) == TurnModel::<
            CheckoutModel,
            ReplyModel,
        >::Done(ReplyModel::Checkout(http::live_session(row, now)->0)),
{
}

/// Nothing is left to check out once a row is past `created`.
pub proof fn settled_row_cannot_be_checked_out(
    app: AppState,
    choice: ChoiceModel,
    row: CorrelationModel,
    now: int,
)
    requires
        row.state != CorrelationState::Created,
    ensures
        checkout::checkout_known(app, choice, row, now) == checkout::checkout_fault(
            ApiError::InvoiceConflict,
        ),
{
}

/// A named return origin is followed only if it is an allowlisted exact origin;
/// the redirect targets derive from it, or are the configured ones.
pub proof fn redirects_stay_on_allowlist(
    app: AppState,
    request: CheckoutSessionRequest,
)
    ensures
        checkout::checkout_start(app, true, Some(request)) matches TurnModel::Perform(
            CheckoutModel::Row(choice),
            _,
        ) ==> match choice.requested_origin {
            Some(origin) => {
                &&& request.return_origin matches Some(named)
                &&& named@ == origin
                &&& text::texts(app.buyer_return_origins@).contains(origin)
            },
            None => request.return_origin is None,
        },
{
}

} // verus!
