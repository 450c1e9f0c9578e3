//! What the gateway's flows ask of the world, what the world answers, and what
//! a caller is answered in the end.
//!
//! A flow is a value that waits for the answer to one action. Each step takes
//! the answer and gives either the final result or the next flow with the next
//! action.

use crate::api_call::Postback;
use crate::api_call::PostbackModel;
use crate::clock::Timestamp;
use crate::error::ApiError;
use crate::lock_fetch::LockCriterion;
use crate::lock_fetch::LockFetchError;
use crate::paypal::Capture;
use crate::paypal::Dispute;
use crate::paypal::Order;
use crate::paypal::PaypalError;
use crate::store::Correlation;
use crate::store::InsertOutcome;
use crate::store::NewCorrelation;
use crate::store::NewCorrelationModel;
use crate::store::SessionRecord;
use crate::store::SessionRecordModel;
use crate::store::StoreError;
use crate::stripe::Charge;
use crate::stripe::CheckoutSession;
use crate::stripe::StripeError;
use crate::text;
use crate::wire::CheckoutSessionResponse;
use crate::wire::CheckoutSessionResponseModel;
use crate::wire::TransactionStatus;
use vstd::prelude::*;

verus! {

/// A hosted checkout to be created on a processor.
#[derive(Debug)]
pub struct CheckoutOrder {
    pub reference: String,
    pub idempotency_key: String,
    pub amount_minor: i64,
    /// The currency as the processor spells it.
    pub currency: String,
    pub product_name: &'static str,
    pub success_url: String,
    pub cancel_url: String,
}

pub struct CheckoutOrderModel {
    pub reference: Seq<char>,
    pub idempotency_key: Seq<char>,
    pub amount_minor: int,
    pub currency: Seq<char>,
    pub product_name: Seq<char>,
    pub success_url: Seq<char>,
    pub cancel_url: Seq<char>,
}

impl View for CheckoutOrder {
    type V = CheckoutOrderModel;

    open spec fn view(&self) -> CheckoutOrderModel {
        CheckoutOrderModel {
            reference: self.reference@,
            idempotency_key: self.idempotency_key@,
            amount_minor: self.amount_minor as int,
            currency: self.currency@,
            product_name: self.product_name@,
            success_url: self.success_url@,
            cancel_url: self.cancel_url@,
        }
    }
}

/// Something that a flow asks for.
#[derive(Debug)]
pub enum Action {
    FetchCriterion { lock_resource: String },
    Insert(NewCorrelation),
    Get { creator: String, bundle_id: String },
    SetSession { creator: String, bundle_id: String, session: SessionRecord },
    MarkPaid {
        creator: String,
        bundle_id: String,
        amount_matched: bool,
        payment_intent: Option<String>,
        paid_at: Timestamp,
    },
    MarkConfirmed { creator: String, bundle_id: String, confirmed_at: Timestamp },
    MarkReversed { creator: String, bundle_id: String },
    FindByPaymentIntent { reference: String },
    RecordWebhookEvent { event_id: String, event_type: String },
    ListOpen,
    CreateCheckoutSession(CheckoutOrder),
    RetrieveSession { session_id: String },
    RetrieveCharge { charge_id: String },
    CreateOrder(CheckoutOrder),
    RetrieveOrder { order_id: String },
    CaptureOrder { order_id: String, request_id: String },
    RetrieveCapture { capture_id: String },
    RetrieveDispute { dispute_id: String },
    VerifyWebhook(Postback),
}

pub enum ActionModel {
    FetchCriterion { lock_resource: Seq<char> },
    Insert(NewCorrelationModel),
    Get { creator: Seq<char>, bundle_id: Seq<char> },
    SetSession { creator: Seq<char>, bundle_id: Seq<char>, session: SessionRecordModel },
    MarkPaid {
        creator: Seq<char>,
        bundle_id: Seq<char>,
        amount_matched: bool,
        payment_intent: Option<Seq<char>>,
        paid_at: int,
    },
    MarkConfirmed { creator: Seq<char>, bundle_id: Seq<char>, confirmed_at: int },
    MarkReversed { creator: Seq<char>, bundle_id: Seq<char> },
    FindByPaymentIntent { reference: Seq<char> },
    RecordWebhookEvent { event_id: Seq<char>, event_type: Seq<char> },
    ListOpen,
    CreateCheckoutSession(CheckoutOrderModel),
    RetrieveSession { session_id: Seq<char> },
    RetrieveCharge { charge_id: Seq<char> },
    CreateOrder(CheckoutOrderModel),
    RetrieveOrder { order_id: Seq<char> },
    CaptureOrder { order_id: Seq<char>, request_id: Seq<char> },
    RetrieveCapture { capture_id: Seq<char> },
    RetrieveDispute { dispute_id: Seq<char> },
    VerifyWebhook(PostbackModel),
}

impl View for Action {
    type V = ActionModel;

    open spec fn view(&self) -> ActionModel {
        match self {
            Action::FetchCriterion { lock_resource } => ActionModel::FetchCriterion {
                lock_resource: lock_resource@,
            },
            Action::Insert(new) => ActionModel::Insert(new@),
            Action::Get { creator, bundle_id } => ActionModel::Get {
                creator: creator@,
                bundle_id: bundle_id@,
            },
            Action::SetSession { creator, bundle_id, session } => ActionModel::SetSession {
                creator: creator@,
                bundle_id: bundle_id@,
                session: session@,
            },
            Action::MarkPaid {
                creator,
                bundle_id,
                amount_matched,
                payment_intent,
                paid_at,
            } => ActionModel::MarkPaid {
                creator: creator@,
                bundle_id: bundle_id@,
                amount_matched: *amount_matched,
                payment_intent: text::text_opt(*payment_intent),
                paid_at: paid_at@,
            },
            Action::MarkConfirmed {
                creator,
                bundle_id,
                confirmed_at,
            } => ActionModel::MarkConfirmed {
                creator: creator@,
                bundle_id: bundle_id@,
                confirmed_at: confirmed_at@,
            },
            Action::MarkReversed { creator, bundle_id } => ActionModel::MarkReversed {
                creator: creator@,
                bundle_id: bundle_id@,
            },
            Action::FindByPaymentIntent { reference } => ActionModel::FindByPaymentIntent {
                reference: reference@,
            },
            Action::RecordWebhookEvent { event_id, event_type } => ActionModel::RecordWebhookEvent {
                event_id: event_id@,
                event_type: event_type@,
            },
            Action::ListOpen => ActionModel::ListOpen,
            Action::CreateCheckoutSession(order) => ActionModel::CreateCheckoutSession(order@),
            Action::RetrieveSession { session_id } => ActionModel::RetrieveSession {
                session_id: session_id@,
            },
            Action::RetrieveCharge { charge_id } => ActionModel::RetrieveCharge {
                charge_id: charge_id@,
            },
            Action::CreateOrder(order) => ActionModel::CreateOrder(order@),
            Action::RetrieveOrder { order_id } => ActionModel::RetrieveOrder {
                order_id: order_id@,
            },
            Action::CaptureOrder { order_id, request_id } => ActionModel::CaptureOrder {
                order_id: order_id@,
                request_id: request_id@,
            },
            Action::RetrieveCapture { capture_id } => ActionModel::RetrieveCapture {
                capture_id: capture_id@,
            },
            Action::RetrieveDispute { dispute_id } => ActionModel::RetrieveDispute {
                dispute_id: dispute_id@,
            },
            Action::VerifyWebhook(postback) => ActionModel::VerifyWebhook(postback@),
        }
    }
}

/// The answer to an action.
#[derive(Debug)]
pub enum Event {
    /// Answers `FetchCriterion`.
    Criterion(Result<LockCriterion, LockFetchError>),
    /// Answers `Insert`.
    Inserted(Result<InsertOutcome, StoreError>),
    /// Answers `Get` and `FindByPaymentIntent`.
    Row(Result<Option<Correlation>, StoreError>),
    /// Answers `SetSession`: whether the session was recorded.
    SessionSet(Result<bool, StoreError>),
    /// Answers `MarkPaid`, `MarkConfirmed` and `MarkReversed`.
    Marked(Result<(), StoreError>),
    /// Answers `RecordWebhookEvent`: whether the event id was new.
    Recorded(Result<bool, StoreError>),
    /// Answers `ListOpen`.
    Open(Result<Vec<Correlation>, StoreError>),
    /// Answers `CreateCheckoutSession` and `RetrieveSession`.
    Session(Result<CheckoutSession, StripeError>),
    /// Answers `RetrieveCharge`.
    Charge(Result<Charge, StripeError>),
    /// Answers `CreateOrder`, `RetrieveOrder` and `CaptureOrder`.
    Order(Result<Order, PaypalError>),
    /// Answers `RetrieveCapture`.
    Capture(Result<Capture, PaypalError>),
    /// Answers `RetrieveDispute`.
    Dispute(Result<Dispute, PaypalError>),
    /// Answers `VerifyWebhook`: whether PayPal attests the delivery.
    Attested(Result<bool, PaypalError>),
}

/// What a caller is answered.
#[derive(Debug)]
pub enum Reply {
    NoContent,
    Fault(ApiError),
    Status(TransactionStatus),
    Checkout(CheckoutSessionResponse),
    /// A webhook delivery was taken, the first time or again.
    Received { duplicate: bool },
    /// The signed call goes on to the Paykit Server as it came.
    Forward { path: &'static str, signature: String, body: Vec<u8> },
}

pub enum ReplyModel {
    NoContent,
    Fault(ApiError),
    Status(TransactionStatus),
    Checkout(CheckoutSessionResponseModel),
    Received { duplicate: bool },
    Forward { path: Seq<char>, signature: Seq<char>, body: Seq<u8> },
}

impl View for Reply {
    type V = ReplyModel;

    open spec fn view(&self) -> ReplyModel {
        match self {
            Reply::NoContent => ReplyModel::NoContent,
            Reply::Fault(error) => ReplyModel::Fault(*error),
            Reply::Status(status) => ReplyModel::Status(*status),
            Reply::Checkout(response) => ReplyModel::Checkout(response@),
            Reply::Received { duplicate } => ReplyModel::Received { duplicate: *duplicate },
            Reply::Forward { path, signature, body } => ReplyModel::Forward {
                path: path@,
                signature: signature@,
                body: body@,
            },
        }
    }
}

/// The outcome of one step of a flow.
#[derive(Debug)]
pub enum Turn<F, R> {
    /// The flow has ended.
    Done(R),
    /// The flow goes on when the action is answered.
    Perform(F, Action),
}

pub enum TurnModel<F, R> {
    Done(R),
    Perform(F, ActionModel),
}

impl<F: View, R: View> View for Turn<F, R> {
    type V = TurnModel<F::V, R::V>;

    open spec fn view(&self) -> TurnModel<F::V, R::V> {
        match self {
            Turn::Done(result) => TurnModel::Done(result@),
            Turn::Perform(flow, action) => TurnModel::Perform(flow@, action@),
        }
    }
}

} // verus!
