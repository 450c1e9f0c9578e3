//! Minting: a hosted checkout is created on a processor, recorded on its
//! correlation, and served. A session whose record lost a race against a
//! different processor or return origin is never served; the recorded one is.

use crate::clock;
use crate::clock::Timestamp;
use crate::effects::Action;
use crate::effects::ActionModel;
use crate::effects::CheckoutOrder;
use crate::effects::CheckoutOrderModel;
use crate::effects::Event;
use crate::effects::Turn;
use crate::effects::TurnModel;
use crate::error::ApiError;
use crate::http;
use crate::http::AppState;
use crate::paypal;
use crate::store::Correlation;
use crate::store::CorrelationModel;
use crate::store::CorrelationState;
use crate::store::SessionRecord;
use crate::store::SessionRecordModel;
use crate::stripe;
use crate::text;
use crate::verification;
use crate::verification::ProcessorKind;
use crate::wire::CheckoutSessionResponse;
use crate::wire::CheckoutSessionResponseModel;
use vstd::prelude::*;

verus! {

/// What a session is minted for.
pub struct MintTask {
    pub kind: ProcessorKind,
    pub creator: String,
    pub bundle_id: String,
    pub attempt: i32,
    pub return_origin: Option<String>,
}

pub struct MintTaskModel {
    pub kind: ProcessorKind,
    pub creator: Seq<char>,
    pub bundle_id: Seq<char>,
    pub attempt: int,
    pub return_origin: Option<Seq<char>>,
}

impl View for MintTask {
    type V = MintTaskModel;

    open spec fn view(&self) -> MintTaskModel {
        MintTaskModel {
            kind: self.kind,
            creator: self.creator@,
            bundle_id: self.bundle_id@,
            attempt: self.attempt as int,
            return_origin: text::text_opt(self.return_origin),
        }
    }
}

/// A mint under way.
pub struct Mint {
    pub task: MintTask,
    pub stage: MintStage,
}

/// What a mint waits for.
pub enum MintStage {
    Creating,
    /// The session is being recorded; it is served once it is.
    Persisting(CheckoutSessionResponse),
    /// The record was refused; the row is being read again.
    Rereading,
}

pub struct MintModel {
    pub task: MintTaskModel,
    pub stage: MintStageModel,
}

pub enum MintStageModel {
    Creating,
    Persisting(CheckoutSessionResponseModel),
    Rereading,
}

impl View for Mint {
    type V = MintModel;

    open spec fn view(&self) -> MintModel {
        MintModel {
            task: self.task@,
            stage: match self.stage {
                MintStage::Creating => MintStageModel::Creating,
                MintStage::Persisting(response) => MintStageModel::Persisting(response@),
                MintStage::Rereading => MintStageModel::Rereading,
            },
        }
    }
}

/// How a mint ends.
pub enum Minted {
    Session(CheckoutSessionResponse),
    Fault(ApiError),
}

pub enum MintedModel {
    Session(CheckoutSessionResponseModel),
    Fault(ApiError),
}

impl View for Minted {
    type V = MintedModel;

    open spec fn view(&self) -> MintedModel {
        match self {
            Minted::Session(response) => MintedModel::Session(response@),
            Minted::Fault(error) => MintedModel::Fault(*error),
        }
    }
}

/// The checkout that is created for a task. Stripe spells currencies in lower
/// case.
pub open spec fn checkout_order(
    app: AppState,
    task: MintTaskModel,
    asset: Seq<char>,
    amount_minor: int,
) -> CheckoutOrderModel {
    let (success_url, cancel_url) = http::redirect_targets(app, task.return_origin);
    CheckoutOrderModel {
        reference: stripe::reference_of(task.creator, task.bundle_id),
        idempotency_key: stripe::session_key(task.creator, task.bundle_id, task.attempt),
        amount_minor,
        currency: match task.kind {
            ProcessorKind::Stripe => text::lower(asset),
            ProcessorKind::Paypal => asset,
        },
        product_name: http::PRODUCT_NAME@,
        success_url,
        cancel_url,
    }
}

/// The first turn of a mint.
pub open spec fn mint_start(
    app: AppState,
    task: MintTaskModel,
    asset: Seq<char>,
    amount_minor: int,
) -> TurnModel<MintModel, MintedModel> {
    if !app.processors.has(task.kind) {
        TurnModel::Done(MintedModel::Fault(ApiError::Unavailable))
    } else {
        let order = checkout_order(app, task, asset, amount_minor);
        TurnModel::Perform(
            MintModel { task, stage: MintStageModel::Creating },
            match task.kind {
                ProcessorKind::Stripe => ActionModel::CreateCheckoutSession(order),
                ProcessorKind::Paypal => ActionModel::CreateOrder(order),
            },
        )
    }
}

/// A created session is recorded; without a URL it is of no use.
pub open spec fn mint_created(
    task: MintTaskModel,
    session_id: Seq<char>,
    checkout_url: Option<Seq<char>>,
    expires_at: int,
) -> TurnModel<MintModel, MintedModel> {
    match checkout_url {
        None => TurnModel::Done(MintedModel::Fault(ApiError::Unavailable)),
        Some(checkout_url) => TurnModel::Perform(
            MintModel {
                task,
                stage: MintStageModel::Persisting(
                    CheckoutSessionResponseModel {
                        checkout_url,
                        processor: verification::kind_text(task.kind),
                        expires_at,
                    },
                ),
            },
            ActionModel::SetSession {
                creator: task.creator,
                bundle_id: task.bundle_id,
                session: SessionRecordModel {
                    processor: verification::kind_text(task.kind),
                    session_id,
                    checkout_url,
                    checkout_expires_at: expires_at,
                    session_attempt: task.attempt,
                    return_origin: task.return_origin,
                },
            },
        ),
    }
}

/// What a lost race ends with: the recorded session while it is live.
pub open spec fn lost_race(row: CorrelationModel, now: int) -> MintedModel {
    if row.state == CorrelationState::Created {
        match http::live_session(row, now) {
            Some(session) => MintedModel::Session(session),
            None => MintedModel::Fault(ApiError::InvoiceConflict),
        }
    } else {
        MintedModel::Fault(ApiError::InvoiceConflict)
    }
}

/// The next turn of a mint.
pub open spec fn mint_step(mint: MintModel, event: Event, now: int) -> TurnModel<
    MintModel,
    MintedModel,
> {
    match (mint.stage, mint.task.kind, event) {
        (
            MintStageModel::Creating,
            ProcessorKind::Stripe,
            Event::Session(Ok(session)),
        ) => mint_created(
            mint.task,
            session.id@,
            text::text_opt(session.url),
            match session.expires_at {
                Some(expires_at) => expires_at as int,
                None => 0,
            },
        ),
        (MintStageModel::Creating, ProcessorKind::Paypal, Event::Order(Ok(order))) => mint_created(
            mint.task,
            order.id@,
            paypal::approval_target(order.links@),
            clock::unix_seconds(now) + http::PAYPAL_ORDER_TTL_SECONDS,
        ),
        (MintStageModel::Persisting(response), _, Event::SessionSet(Ok(persisted))) => if persisted {
            TurnModel::Done(MintedModel::Session(response))
        } else {
            TurnModel::Perform(
                MintModel { stage: MintStageModel::Rereading, ..mint },
                ActionModel::Get {
                    creator: mint.task.creator,
                    bundle_id: mint.task.bundle_id,
                },
            )
        },
        (MintStageModel::Rereading, _, Event::Row(Ok(Some(row)))) => TurnModel::Done(
            lost_race(row@, now),
        ),
        (MintStageModel::Rereading, _, Event::Row(Ok(None))) => TurnModel::Done(
            MintedModel::Fault(ApiError::InvoiceConflict),
        ),
        _ => TurnModel::Done(MintedModel::Fault(ApiError::Unavailable)),
    }
}

fn unavailable() -> (turn: Turn<Mint, Minted>)
    ensures
        turn@ == TurnModel::<MintModel, MintedModel>::Done(
            MintedModel::Fault(ApiError::Unavailable),
        ),
{
    Turn::Done(Minted::Fault(ApiError::Unavailable))
}

/// Starts to mint a session.
pub fn mint_session(app: &AppState, task: MintTask, asset: &str, amount_minor: i64) -> (turn: Turn<
    Mint,
    Minted,
>)
    ensures
        turn@ == mint_start(*app, task@, asset@, amount_minor as int),
{
    if !app.processors.is_configured(task.kind) {
        return unavailable();
    }
    let (success_url, cancel_url): (String, String) = http::return_urls(app, &task.return_origin);
    let reference: String = stripe::client_reference(&task.creator, &task.bundle_id);
    let idempotency_key: String = stripe::idempotency_key(
        &task.creator,
        &task.bundle_id,
        task.attempt,
    );
    let currency: String = match task.kind {
        ProcessorKind::Stripe => text::lowered(asset),
        ProcessorKind::Paypal => asset.to_owned(),
    };
    let order: CheckoutOrder = CheckoutOrder {
        reference,
        idempotency_key,
        amount_minor,
        currency,
        product_name: http::PRODUCT_NAME,
        success_url,
        cancel_url,
    };
    let action: Action = match task.kind {
        ProcessorKind::Stripe => Action::CreateCheckoutSession(order),
        ProcessorKind::Paypal => Action::CreateOrder(order),
    };
    Turn::Perform(Mint { task, stage: MintStage::Creating }, action)
}

/// The session that a lost race ends with.
pub fn persisted_session_after_lost_race(correlation: &Correlation, now: Timestamp) -> (minted:
    Minted)
    ensures
        minted@ == lost_race(correlation@, now@),
{
    if correlation.state == CorrelationState::Created {
        if let Some(session) = http::find_live_session(correlation, now) {
            return Minted::Session(session);
        }
    }
    Minted::Fault(ApiError::InvoiceConflict)
}

impl Mint {
    fn record(task: MintTask, session_id: String, checkout_url: String, expires_at: i64) -> (turn:
        Turn<Mint, Minted>)
        ensures
            turn@ == mint_created(
                task@,
                session_id@,
                Some(checkout_url@),
                expires_at as int,
            ),
    {
        let action: Action = Action::SetSession {
            creator: task.creator.clone(),
            bundle_id: task.bundle_id.clone(),
            session: SessionRecord {
                processor: task.kind.as_str(),
                session_id,
                checkout_url: checkout_url.clone(),
                checkout_expires_at: expires_at,
                session_attempt: task.attempt,
                return_origin: text::copy_text_opt(&task.return_origin),
            },
        };
        let response: CheckoutSessionResponse = CheckoutSessionResponse {
            checkout_url,
            processor: task.kind.as_str(),
            expires_at,
        };
        Turn::Perform(Mint { task, stage: MintStage::Persisting(response) }, action)
    }

    /// The next turn of the mint. An answer that does not fit counts as a
    /// failed one.
    pub fn step(self, event: &Event, now: Timestamp) -> (turn: Turn<Mint, Minted>)
        ensures
            turn@ == mint_step(self@, *event, now@),
    {
        match (self.stage, self.task.kind, event) {
            (MintStage::Creating, ProcessorKind::Stripe, Event::Session(Ok(session))) => {
                let expires_at: i64 = match session.expires_at {
                    Some(expires_at) => expires_at,
                    None => 0,
                };
                match &session.url {
                    Some(url) => Mint::record(
                        self.task,
                        session.id.clone(),
                        url.clone(),
                        expires_at,
                    ),
                    None => unavailable(),
                }
            },
            (MintStage::Creating, ProcessorKind::Paypal, Event::Order(Ok(order))) => {
                let expires_at: i64 = now.unix() + http::PAYPAL_ORDER_TTL_SECONDS;
                match order.approval_url() {
                    Some(url) => Mint::record(
                        self.task,
                        order.id.clone(),
                        url.to_owned(),
                        expires_at,
                    ),
                    None => unavailable(),
                }
            },
            (MintStage::Persisting(response), _, Event::SessionSet(Ok(persisted))) => {
                if *persisted {
                    return Turn::Done(Minted::Session(response));
                }
                let action: Action = Action::Get {
                    creator: self.task.creator.clone(),
                    bundle_id: self.task.bundle_id.clone(),
                };
                Turn::Perform(Mint { task: self.task, stage: MintStage::Rereading }, action)
            },
            (MintStage::Rereading, _, Event::Row(Ok(Some(row)))) => Turn::Done(
                persisted_session_after_lost_race(row, now),
            ),
            (MintStage::Rereading, _, Event::Row(Ok(None))) => Turn::Done(
                Minted::Fault(ApiError::InvoiceConflict),
            ),
            _ => unavailable(),
        }
    }
}

} // verus!
