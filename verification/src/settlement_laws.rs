//! How a payment is told and settled: what a status request and a round of the
//! poll do with a row, from the fields of the row and the outcome of the pull.

use crate::effects::ActionModel;
use crate::effects::Event;
use crate::effects::ReplyModel;
use crate::effects::TurnModel;
use crate::error::ApiError;
use crate::http::AppState;
use crate::payment_laws;
use crate::status;
use crate::status::StatusCheckModel;
use crate::store::Correlation;
use crate::store::CorrelationModel;
use crate::store::CorrelationState;
use crate::verification;
use crate::verification::PromotionModel;
use crate::verification::PullModel;
use crate::verification::PullOutcome;
use crate::verification::PullStage;
use crate::wire::StatusKind;
use crate::wire::StatusRequestModel;
use crate::wire::TransactionStatus;
use crate::worker;
use crate::worker::PollModel;
use vstd::prelude::*;

verus! {

/// An answer with a status.
pub open spec fn told(status: StatusKind, confirmations: u32, amount_matched: bool) -> TurnModel<
    StatusCheckModel,
    ReplyModel,
> {
    TurnModel::Done(
        ReplyModel::Status(TransactionStatus { status, confirmations, amount_matched }),
    )
}

/// Whether a row was paid so long ago that it can be confirmed.
pub open spec fn has_rested(row: Correlation, now: int, settlement_delay: int) -> bool {
    row.paid_at matches Some(paid_at) && now - paid_at@ >= settlement_delay
}

/// Whether a turn tells what a row says: nothing of a created or reversed row,
/// the detection of a paid one, the confirmation of a confirmed one. A paid row
/// with the right amount that has rested is not told at once.
pub open spec fn tells(
    app: AppState,
    row: Correlation,
    now: int,
    turn: TurnModel<StatusCheckModel, ReplyModel>,
) -> bool {
    match row.state {
        CorrelationState::Created => turn == told(StatusKind::Undetected, 0, false),
        CorrelationState::Reversed => turn == told(StatusKind::Undetected, 0, false),
        CorrelationState::Confirmed => turn == told(
            StatusKind::Confirmed,
            app.synthesized_confirmations,
            true,
        ),
        CorrelationState::Paid => !(row.amount_matched && has_rested(
            row,
            now,
            app.settlement_delay@,
        )) ==> turn == told(StatusKind::Detected, 0, row.amount_matched),
    }
}

/// A status request on a row that awaits no payment is answered from the row.
pub proof fn status_tells_the_row(
    app: AppState,
    request: StatusRequestModel,
    signature: Option<Seq<char>>,
    raw_body: Seq<u8>,
    row: Correlation,
    now: int,
)
    requires
        row.asset@ != "BTC"@,
        row.state != CorrelationState::Created || row.session_id is None,
    ensures
        tells(
            app,
            row,
            now,
            status::status_step(
                app,
                StatusCheckModel::Row { request, signature, raw_body },
                Event::Row(Ok(Some(row))),
                now,
            ),
        ),
{
}

/// A status request whose row could not be read is unavailable.
pub proof fn unread_status_is_unavailable(
    app: AppState,
    request: StatusRequestModel,
    signature: Option<Seq<char>>,
    raw_body: Seq<u8>,
    event: Event,
    now: int,
)
    requires
        !(event matches Event::Row(Ok(_))),
    ensures
        status::status_step(app, StatusCheckModel::Row { request, signature, raw_body }, event, now)
            == TurnModel::<StatusCheckModel, ReplyModel>::Done(
            ReplyModel::Fault(ApiError::Unavailable),
        ),
{
}

/// A status request on a row that awaits its payment pulls the row's session
/// first; whatever the pull ends with, the row is read again and told as it is
/// then, by the time of the request. Where it cannot be read again, it is told
/// as it was.
pub proof fn status_pulls_before_it_tells(
    app: AppState,
    request: StatusRequestModel,
    signature: Option<Seq<char>>,
    raw_body: Seq<u8>,
    row: Correlation,
    pull: PullModel,
    event: Event,
    refreshed: Correlation,
    unread: Event,
    now: int,
    later: int,
)
    requires
        row.asset@ != "BTC"@,
        row.state == CorrelationState::Created,
        row.session_id is Some,
        !(unread matches Event::Row(Ok(Some(_)))),
    ensures
        ({
            let reread = ActionModel::Get {
                creator: request.creator,
                bundle_id: request.bundle_id,
            };
            let refreshing = StatusCheckModel::Refreshing { row: row@, now };
            let first = status::status_step(
                app,
                StatusCheckModel::Row { request, signature, raw_body },
                Event::Row(Ok(Some(row))),
                now,
            );
            let next = status::status_step(
                app,
                StatusCheckModel::Pulling { request, row: row@, now, pull },
                event,
                later,
            );
            &&& match verification::pull_start(app.processors, row@, now) {
                TurnModel::Perform(started, action) => first == TurnModel::<
                    StatusCheckModel,
                    ReplyModel,
                >::Perform(
                    StatusCheckModel::Pulling { request, row: row@, now, pull: started },
                    action,
                ),
                TurnModel::Done(_) => first == TurnModel::<StatusCheckModel, ReplyModel>::Perform(
                    refreshing,
                    reread,
                ),
            }
            &&& match verification::pull_step(pull, event) {
                TurnModel::Perform(going, action) => next == TurnModel::<
                    StatusCheckModel,
                    ReplyModel,
                >::Perform(
                    StatusCheckModel::Pulling { request, row: row@, now, pull: going },
                    action,
                ),
                TurnModel::Done(_) => next == TurnModel::<StatusCheckModel, ReplyModel>::Perform(
                    refreshing,
                    reread,
                ),
            }
            &&& tells(
                app,
                refreshed,
                now,
                status::status_step(app, refreshing, Event::Row(Ok(Some(refreshed))), later),
            )
            &&& status::status_step(app, refreshing, unread, later) == told(
                StatusKind::Undetected,
                0,
                false,
            )
        }),
{
}

/// A status request on a paid row with the right amount that has rested pulls
/// the row's session afresh. Where nothing can be pulled, the payment is told as
/// detected.
pub proof fn rested_payment_is_pulled_again(
    app: AppState,
    request: StatusRequestModel,
    signature: Option<Seq<char>>,
    raw_body: Seq<u8>,
    row: Correlation,
    now: int,
)
    requires
        row.asset@ != "BTC"@,
        row.state == CorrelationState::Paid,
        row.amount_matched,
        has_rested(row, now, app.settlement_delay@),
    ensures
        ({
            let turn = status::status_step(
                app,
                StatusCheckModel::Row { request, signature, raw_body },
                Event::Row(Ok(Some(row))),
                now,
            );
            match (row.processor, row.session_id) {
                (_, None) => turn == told(StatusKind::Detected, 0, true),
                (None, Some(session_id)) => app.processors.stripe is Some ==> asks(
                    turn,
                    ActionModel::RetrieveSession { session_id: session_id@ },
                ),
                (Some(processor), Some(session_id)) => {
                    &&& processor@ == "stripe"@ && app.processors.stripe is Some ==> asks(
                        turn,
                        ActionModel::RetrieveSession { session_id: session_id@ },
                    )
                    &&& processor@ == "paypal"@ && app.processors.paypal is Some ==> asks(
                        turn,
                        ActionModel::RetrieveOrder { order_id: session_id@ },
                    )
                },
            }
        }),
{
    payment_laws::rows_are_pulled_from_their_processor(app.processors, row@, now);
    reveal_strlit("stripe");
    reveal_strlit("paypal");
    assert("stripe"@[0] == 's' && "paypal"@[0] == 'p');
}

/// Whether a turn performs an action.
pub open spec fn asks(
    turn: TurnModel<StatusCheckModel, ReplyModel>,
    action: ActionModel,
) -> bool {
    turn matches TurnModel::Perform(_, asked) && asked == action
}

/// A promotion that a status request waits for goes on as every promotion does.
/// It is told as confirmed, with the configured confirmations, once it is
/// recorded, and as it was before otherwise.
pub proof fn status_promotion_goes_on(
    app: AppState,
    fallback: TransactionStatus,
    promotion: PromotionModel,
    event: Event,
    now: int,
)
    ensures
        ({
            let turn = status::status_step(
                app,
                StatusCheckModel::Promoting { fallback, promotion },
                event,
                now,
            );
            match verification::promotion_step(promotion, event) {
                TurnModel::Perform(next, action) => turn == TurnModel::<
                    StatusCheckModel,
                    ReplyModel,
                >::Perform(StatusCheckModel::Promoting { fallback, promotion: next }, action),
                TurnModel::Done(true) => turn == told(
                    StatusKind::Confirmed,
                    app.synthesized_confirmations,
                    true,
                ),
                TurnModel::Done(false) => turn == TurnModel::<StatusCheckModel, ReplyModel>::Done(
                    ReplyModel::Status(fallback),
                ),
            }
        }),
{
}

/// A promotion begins with a pull of its row, and ends at once, without a
/// confirmation, where nothing can be pulled.
pub proof fn promotion_begins_with_a_pull(
    processors: verification::Processors,
    row: CorrelationModel,
    now: int,
)
    ensures
        match verification::pull_start(processors, row, now) {
            TurnModel::Perform(pull, action) => verification::promotion_start(processors, row, now)
                == TurnModel::<PromotionModel, bool>::Perform(
                PromotionModel {
                    creator: row.creator,
                    bundle_id: row.bundle_id,
                    now,
                    stage: verification::PromotionStageModel::Pulling(pull),
                },
                action,
            ),
            TurnModel::Done(_) => verification::promotion_start(processors, row, now)
                == TurnModel::<PromotionModel, bool>::Done(false),
        },
{
    payment_laws::rows_are_pulled_from_their_processor(processors, row, now);
}

/// A round of the poll lists the open rows, and pulls them one after the other.
/// Without a list it ends.
pub proof fn poll_pulls_the_open_rows(
    app: AppState,
    open: Vec<Correlation>,
    unlisted: Event,
    now: int,
)
    requires
        !(unlisted matches Event::Open(Ok(_))),
    ensures
        worker::poll_start() == TurnModel::<PollModel, ()>::Perform(
            PollModel::Listing,
            ActionModel::ListOpen,
        ),
        worker::poll_step(app, PollModel::Listing, unlisted, now) == TurnModel::<
            PollModel,
            (),
        >::Done(()),
        worker::poll_step(app, PollModel::Listing, Event::Open(Ok(open)), now) == worker::poll_next(
            app,
            Seq::new(open@.len(), |i: int| open@[i]@),
            now,
        ),
{
    assert(worker::rows_of(open@) =~= Seq::new(open@.len(), |i: int| open@[i]@));
}

/// The first of the rows that has a session on a configured processor is pulled
/// next, and the rows behind it are left for later.
pub proof fn poll_turns_to_the_next_row(
    app: AppState,
    rows: Seq<CorrelationModel>,
    at: int,
    session_id: Seq<char>,
    now: int,
)
    requires
        0 <= at < rows.len(),
        rows[at].session_id == Some(session_id),
        forall|j: int| 0 <= j < at ==> (#[trigger] rows[j]).session_id is None,
    ensures
        app.processors.stripe is Some && (rows[at].processor is None || rows[at].processor == Some(
            "stripe"@,
        )) ==> worker::poll_next(app, rows, now) == TurnModel::<PollModel, ()>::Perform(
            PollModel::Pulling {
                creator: rows[at].creator,
                bundle_id: rows[at].bundle_id,
                now,
                pull: PullModel { row: rows[at], now, stage: PullStage::Session },
                rest: rows.skip(at + 1),
            },
            ActionModel::RetrieveSession { session_id },
        ),
        app.processors.paypal is Some && rows[at].processor == Some("paypal"@)
            ==> worker::poll_next(app, rows, now) == TurnModel::<PollModel, ()>::Perform(
            PollModel::Pulling {
                creator: rows[at].creator,
                bundle_id: rows[at].bundle_id,
                now,
                pull: PullModel { row: rows[at], now, stage: PullStage::Order },
                rest: rows.skip(at + 1),
            },
            ActionModel::RetrieveOrder { order_id: session_id },
        ),
    decreases at,
{
    payment_laws::rows_are_pulled_from_their_processor(app.processors, rows[0], now);
    reveal_strlit("stripe");
    reveal_strlit("paypal");
    assert("stripe"@[0] == 's' && "paypal"@[0] == 'p');
    if at > 0 {
        let rest = rows.skip(1);
        assert(rows[0].session_id is None);
        assert forall|j: int| 0 <= j < at - 1 implies (#[trigger] rest[j]).session_id is None by {
            assert(rest[j] == rows[j + 1]);
        }
        poll_turns_to_the_next_row(app, rest, at - 1, session_id, now);
        assert(rest.skip(at) =~= rows.skip(at + 1));
    }
}

/// A round of the poll ends when no row is left.
pub proof fn poll_ends_without_rows(app: AppState, now: int)
    ensures
        worker::poll_next(app, Seq::empty(), now) == TurnModel::<PollModel, ()>::Done(()),
{
}

/// A pull of the poll goes on as every pull does. When it ends with a matched
/// payment, the row is read again; otherwise the round turns to the next row.
pub proof fn poll_pull_goes_on(
    app: AppState,
    creator: Seq<char>,
    bundle_id: Seq<char>,
    pulled_at: int,
    pull: PullModel,
    rest: Seq<CorrelationModel>,
    event: Event,
    now: int,
)
    ensures
        ({
            let turn = worker::poll_step(
                app,
                PollModel::Pulling { creator, bundle_id, now: pulled_at, pull, rest },
                event,
                now,
            );
            match verification::pull_step(pull, event) {
                TurnModel::Perform(next, action) => turn == TurnModel::<PollModel, ()>::Perform(
                    PollModel::Pulling { creator, bundle_id, now: pulled_at, pull: next, rest },
                    action,
                ),
                TurnModel::Done(outcome) => if outcome == (PullOutcome::Paid {
                    amount_matched: true,
                }) {
                    turn == TurnModel::<PollModel, ()>::Perform(
                        PollModel::Refreshing { now: pulled_at, rest },
                        ActionModel::Get { creator, bundle_id },
                    )
                } else {
                    turn == worker::poll_next(app, rest, now)
                },
            }
        }),
{
}

/// A row that was just found paid is confirmed exactly if it is paid and has
/// rested, at the time of its pull; then, and otherwise at once, the round turns
/// to the next row.
pub proof fn poll_confirms_rested_payments(
    app: AppState,
    pulled_at: int,
    rest: Seq<CorrelationModel>,
    row: Correlation,
    event: Event,
    now: int,
)
    ensures
        worker::poll_step(
            app,
            PollModel::Refreshing { now: pulled_at, rest },
            Event::Row(Ok(Some(row))),
            now,
        ) == (if row.state == CorrelationState::Paid && has_rested(
            row,
            pulled_at,
            app.settlement_delay@,
        ) {
            TurnModel::<PollModel, ()>::Perform(
                PollModel::Confirming { rest },
                ActionModel::MarkConfirmed {
                    creator: row.creator@,
                    bundle_id: row.bundle_id@,
                    confirmed_at: pulled_at,
                },
            )
        } else {
            worker::poll_next(app, rest, now)
        }),
        !(event matches Event::Row(Ok(Some(_)))) ==> worker::poll_step(
            app,
            PollModel::Refreshing { now: pulled_at, rest },
            event,
            now,
        ) == worker::poll_next(app, rest, now),
        worker::poll_step(app, PollModel::Confirming { rest }, event, now) == worker::poll_next(
            app,
            rest,
            now,
        ),
{
}

} // verus!
