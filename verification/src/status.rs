//! `POST /transactions/status`: Bitcoin and unknown invoices go on to the
//! Paykit Server as they came; fiat invoices are answered from local state,
//! which only verified pulls advance.

use crate::auth;
use crate::auth::Headers;
use crate::clock::Timestamp;
use crate::effects::Action;
use crate::effects::ActionModel;
use crate::effects::Event;
use crate::effects::Reply;
use crate::effects::ReplyModel;
use crate::effects::Turn;
use crate::effects::TurnModel;
use crate::error::ApiError;
use crate::http;
use crate::http::AppState;
use crate::invoice;
use crate::state;
use crate::state::Report;
use crate::store::Correlation;
use crate::store::CorrelationModel;
use crate::store::CorrelationState;
use crate::text;
use crate::verification;
use crate::verification::Promotion;
use crate::verification::PromotionModel;
use crate::verification::Pull;
use crate::verification::PullModel;
use crate::verification::PullOutcome;
use crate::wire;
use crate::wire::StatusKind;
use crate::wire::StatusRequest;
use crate::wire::StatusRequestModel;
use crate::wire::TransactionStatus;
use vstd::prelude::*;

verus! {

/// A status request under way, by what it waits for.
pub enum StatusCheck {
    Row { request: StatusRequest, signature: Option<String>, raw_body: Vec<u8> },
    /// A payment is awaited, and the processor is being asked.
    Pulling { request: StatusRequest, correlation: Correlation, now: Timestamp, pull: Pull },
    /// The row is being read again after the pull.
    Refreshing { correlation: Correlation, now: Timestamp },
    Promoting { fallback: TransactionStatus, promotion: Promotion },
}

pub enum StatusCheckModel {
    Row { request: StatusRequestModel, signature: Option<Seq<char>>, raw_body: Seq<u8> },
    Pulling { request: StatusRequestModel, row: CorrelationModel, now: int, pull: PullModel },
    Refreshing { row: CorrelationModel, now: int },
    Promoting { fallback: TransactionStatus, promotion: PromotionModel },
}

impl View for StatusCheck {
    type V = StatusCheckModel;

    open spec fn view(&self) -> StatusCheckModel {
        match self {
            StatusCheck::Row { request, signature, raw_body } => StatusCheckModel::Row {
                request: request@,
                signature: text::text_opt(*signature),
                raw_body: raw_body@,
            },
            StatusCheck::Pulling { request, correlation, now, pull } => StatusCheckModel::Pulling {
                request: request@,
                row: correlation@,
                now: now@,
                pull: pull@,
            },
            StatusCheck::Refreshing { correlation, now } => StatusCheckModel::Refreshing {
                row: correlation@,
                now: now@,
            },
            StatusCheck::Promoting { fallback, promotion } => StatusCheckModel::Promoting {
                fallback: *fallback,
                promotion: promotion@,
            },
        }
    }
}

/// A status request that ends with an error.
pub open spec fn status_fault(error: ApiError) -> TurnModel<StatusCheckModel, ReplyModel> {
    TurnModel::Done(ReplyModel::Fault(error))
}

/// The first turn of a parsed request: the row is read.
pub open spec fn status_admitted(
    request: StatusRequestModel,
    signature: Option<Seq<char>>,
    raw_body: Seq<u8>,
) -> TurnModel<StatusCheckModel, ReplyModel> {
    if !wire::valid_id(request.bundle_id) || request.creator.len() == 0 {
        status_fault(ApiError::InvalidRequest)
    } else {
        TurnModel::Perform(
            StatusCheckModel::Row { request, signature, raw_body },
            ActionModel::Get { creator: request.creator, bundle_id: request.bundle_id },
        )
    }
}

/// The first turn of a raw request.
pub open spec fn status_start(
    app: AppState,
    headers: Seq<(Seq<char>, Seq<u8>)>,
    raw_body: Seq<u8>,
) -> TurnModel<StatusCheckModel, ReplyModel> {
    if !auth::authentic(app.trusted_key@, headers, raw_body) {
        status_fault(ApiError::InvalidSignature)
    } else {
        match auth::strict_body::<StatusRequest>(raw_body) {
            None => status_fault(ApiError::InvalidRequest),
            Some(request) => status_admitted(
                request,
                auth::header_text(headers, auth::SIGNATURE_HEADER@),
                raw_body,
            ),
        }
    }
}

/// A turn of the promotion: the request is answered when it ends.
pub open spec fn status_promoting(
    app: AppState,
    fallback: TransactionStatus,
    turn: TurnModel<PromotionModel, bool>,
) -> TurnModel<StatusCheckModel, ReplyModel> {
    match turn {
        TurnModel::Perform(promotion, action) => TurnModel::Perform(
            StatusCheckModel::Promoting { fallback, promotion },
            action,
        ),
        TurnModel::Done(promoted) => TurnModel::Done(
            ReplyModel::Status(
                if promoted {
                    state::settled(app.synthesized_confirmations)
                } else {
                    fallback
                },
            ),
        ),
    }
}

/// The answer to what a row says, after a promotion where one is due.
pub open spec fn status_reported(app: AppState, row: CorrelationModel, now: int) -> TurnModel<
    StatusCheckModel,
    ReplyModel,
> {
    match state::reported(row, now, app.settlement_delay@, app.synthesized_confirmations) {
        Report::Immediate(status) => TurnModel::Done(ReplyModel::Status(status)),
        Report::PromotionDue { fallback } => status_promoting(
            app,
            fallback,
            verification::promotion_start(app.processors, row, now),
        ),
    }
}

/// A turn of the pull: whatever it established, the row is read again when it
/// ends.
pub open spec fn status_pulling(
    request: StatusRequestModel,
    row: CorrelationModel,
    now: int,
    turn: TurnModel<PullModel, PullOutcome>,
) -> TurnModel<StatusCheckModel, ReplyModel> {
    match turn {
        TurnModel::Perform(pull, action) => TurnModel::Perform(
            StatusCheckModel::Pulling { request, row, now, pull },
            action,
        ),
        TurnModel::Done(_) => TurnModel::Perform(
            StatusCheckModel::Refreshing { row, now },
            ActionModel::Get { creator: request.creator, bundle_id: request.bundle_id },
        ),
    }
}

/// The turn that a fiat row leads to. While a payment is awaited, the request
/// doubles as an observation of it.
pub open spec fn status_known(
    app: AppState,
    request: StatusRequestModel,
    row: CorrelationModel,
    now: int,
) -> TurnModel<StatusCheckModel, ReplyModel> {
    if row.state == CorrelationState::Created && row.session_id is Some {
        status_pulling(request, row, now, verification::pull_start(app.processors, row, now))
    } else {
        status_reported(app, row, now)
    }
}

/// The next turn of a status request.
pub open spec fn status_step(
    app: AppState,
    check: StatusCheckModel,
    event: Event,
    now: int,
) -> TurnModel<StatusCheckModel, ReplyModel> {
    match (check, event) {
        (
            StatusCheckModel::Row { request, signature, raw_body },
            Event::Row(Ok(Some(row))),
        ) => if row.asset@ == "BTC"@ {
            TurnModel::Done(invoice::forwarded("transactions/status"@, signature, raw_body))
        } else {
            status_known(app, request, row@, now)
        },
        (StatusCheckModel::Row { request, signature, raw_body }, Event::Row(Ok(None))) =>
            TurnModel::Done(invoice::forwarded("transactions/status"@, signature, raw_body)),
        (StatusCheckModel::Row { .. }, _) => status_fault(ApiError::Unavailable),
        (
            StatusCheckModel::Pulling { request, row, now: pulled_at, pull },
            _,
        ) => status_pulling(request, row, pulled_at, verification::pull_step(pull, event)),
        (
            StatusCheckModel::Refreshing { row, now: pulled_at },
            Event::Row(Ok(Some(refreshed))),
        ) => status_reported(app, refreshed@, pulled_at),
        (StatusCheckModel::Refreshing { row, now: pulled_at }, _) => status_reported(
            app,
            row,
            pulled_at,
        ),
        (StatusCheckModel::Promoting { fallback, promotion }, _) => status_promoting(
            app,
            fallback,
            verification::promotion_step(promotion, event),
        ),
    }
}

fn fault(error: ApiError) -> (turn: Turn<StatusCheck, Reply>)
    ensures
        turn@ == status_fault(error),
{
    Turn::Done(Reply::Fault(error))
}

/// The first turn of a request that was authenticated and parsed.
pub fn admit_status(request: StatusRequest, signature: Option<String>, raw_body: Vec<u8>) -> (turn:
    Turn<StatusCheck, Reply>)
    ensures
        turn@ == status_admitted(request@, text::text_opt(signature), raw_body@),
{
    if wire::validate_id(&request.bundle_id).is_err() || request.creator.as_str().unicode_len()
        == 0 {
        return fault(ApiError::InvalidRequest);
    }
    let action: Action = Action::Get {
        creator: request.creator.clone(),
        bundle_id: request.bundle_id.clone(),
    };
    Turn::Perform(StatusCheck::Row { request, signature, raw_body }, action)
}

fn pulling(
    request: StatusRequest,
    correlation: Correlation,
    now: Timestamp,
    turn: Turn<Pull, PullOutcome>,
) -> (next: Turn<StatusCheck, Reply>)
    ensures
        next@ == status_pulling(request@, correlation@, now@, turn@),
{
    match turn {
        Turn::Perform(pull, action) => Turn::Perform(
            StatusCheck::Pulling { request, correlation, now, pull },
            action,
        ),
        Turn::Done(_) => Turn::Perform(
            StatusCheck::Refreshing { correlation, now },
            Action::Get { creator: request.creator, bundle_id: request.bundle_id },
        ),
    }
}

impl AppState {
    /// The first turn of a raw request.
    pub fn transaction_status(&self, headers: &Headers, raw_body: Vec<u8>) -> (turn: Turn<
        StatusCheck,
        Reply,
    >)
        ensures
            turn@ == status_start(*self, headers@, raw_body@),
    {
        if auth::verify_signature(&self.trusted_key, headers, &raw_body).is_err() {
            return fault(ApiError::InvalidSignature);
        }
        let request: StatusRequest = match auth::parse_canonical_strict::<StatusRequest>(
            &raw_body,
        ) {
            Ok(request) => request,
            Err(error) => return fault(error),
        };
        let signature: Option<String> = http::signature_string(headers).ok();
        admit_status(request, signature, raw_body)
    }

    fn promoting(&self, fallback: TransactionStatus, turn: Turn<Promotion, bool>) -> (next: Turn<
        StatusCheck,
        Reply,
    >)
        ensures
            next@ == status_promoting(*self, fallback, turn@),
    {
        match turn {
            Turn::Perform(promotion, action) => Turn::Perform(
                StatusCheck::Promoting { fallback, promotion },
                action,
            ),
            Turn::Done(promoted) => {
                if promoted {
                    Turn::Done(
                        Reply::Status(
                            TransactionStatus {
                                status: StatusKind::Confirmed,
                                confirmations: self.synthesized_confirmations,
                                amount_matched: true,
                            },
                        ),
                    )
                } else {
                    Turn::Done(Reply::Status(fallback))
                }
            },
        }
    }

    fn report_status(&self, correlation: Correlation, now: Timestamp) -> (turn: Turn<
        StatusCheck,
        Reply,
    >)
        ensures
            turn@ == status_reported(*self, correlation@, now@),
    {
        match state::report(
            &correlation,
            now,
            self.settlement_delay,
            self.synthesized_confirmations,
        ) {
            Report::Immediate(status) => Turn::Done(Reply::Status(status)),
            Report::PromotionDue { fallback } => self.promoting(
                fallback,
                verification::promote_if_still_paid(&self.processors, correlation, now),
            ),
        }
    }

    fn answer_known(&self, request: StatusRequest, correlation: Correlation, now: Timestamp) -> (turn:
        Turn<StatusCheck, Reply>)
        ensures
            turn@ == status_known(*self, request@, correlation@, now@),
    {
        if correlation.state == CorrelationState::Created && correlation.session_id.is_some() {
            let turn: Turn<Pull, PullOutcome> = verification::pull_and_apply(
                &self.processors,
                correlation.copy(),
                now,
            );
            return pulling(request, correlation, now, turn);
        }
        self.report_status(correlation, now)
    }

    /// The next turn of a status request. An answer that does not fit counts
    /// as a failed one.
    pub fn step_status(&self, check: StatusCheck, event: &Event, now: Timestamp) -> (turn: Turn<
        StatusCheck,
        Reply,
    >)
        ensures
            turn@ == status_step(*self, check@, *event, now@),
    {
        match (check, event) {
            (StatusCheck::Row { request, signature, raw_body }, Event::Row(Ok(Some(row)))) => {
                if text::same_text(&row.asset, "BTC") {
                    return Turn::Done(
                        invoice::forward("transactions/status", signature, raw_body),
                    );
                }
                self.answer_known(request, row.copy(), now)
            },
            (StatusCheck::Row { request, signature, raw_body }, Event::Row(Ok(None))) => Turn::Done(
                invoice::forward("transactions/status", signature, raw_body),
            ),
            (StatusCheck::Row { .. }, _) => fault(ApiError::Unavailable),
            (StatusCheck::Pulling { request, correlation, now: pulled_at, pull }, event) => pulling(
                request,
                correlation,
                pulled_at,
                pull.step(event),
            ),
            (
                StatusCheck::Refreshing { correlation, now: pulled_at },
                Event::Row(Ok(Some(refreshed))),
            ) => self.report_status(refreshed.copy(), pulled_at),
            (StatusCheck::Refreshing { correlation, now: pulled_at }, _) => self.report_status(
                correlation,
                pulled_at,
            ),
            (StatusCheck::Promoting { fallback, promotion }, event) => self.promoting(
                fallback,
                promotion.step(event),
            ),
        }
    }
}

} // verus!
