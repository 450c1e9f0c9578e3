//! The pull-is-truth core: every state advance flows through a fresh read of
//! the processor's API. Webhooks and the slow poll both funnel into
//! `pull_and_apply`; the promotion to `confirmed` additionally requires the
//! settlement delay to have elapsed and a fresh pull at promotion time.

use crate::clock::Timestamp;
use crate::effects::Action;
use crate::effects::ActionModel;
use crate::effects::Event;
use crate::effects::Turn;
use crate::effects::TurnModel;
use crate::money;
use crate::paypal;
use crate::paypal::Capture;
use crate::paypal::Order;
use crate::paypal::PaypalProcessor;
use crate::store;
use crate::store::Correlation;
use crate::store::CorrelationModel;
use crate::store::CorrelationState;
use crate::stripe::CheckoutSession;
use crate::stripe::StripeProcessor;
use crate::text;
use vstd::prelude::*;

verus! {

#[derive(Clone, Copy, Debug, PartialEq, Eq, Structural)]
pub enum ProcessorKind {
    Stripe,
    Paypal,
}

/// The spelling of a processor kind.
pub open spec fn kind_text(kind: ProcessorKind) -> Seq<char> {
    match kind {
        ProcessorKind::Stripe => "stripe"@,
        ProcessorKind::Paypal => "paypal"@,
    }
}

/// The processor kind that a text spells.
pub open spec fn kind_of(value: Seq<char>) -> Option<ProcessorKind> {
    if value == "stripe"@ {
        Some(ProcessorKind::Stripe)
    } else if value == "paypal"@ {
        Some(ProcessorKind::Paypal)
    } else {
        None
    }
}

impl ProcessorKind {
    pub fn parse(value: &str) -> (kind: Option<Self>)
        ensures
            kind == kind_of(value@),
    {
        if text::same_text(value, "stripe") {
            Some(ProcessorKind::Stripe)
        } else if text::same_text(value, "paypal") {
            Some(ProcessorKind::Paypal)
        } else {
            None
        }
    }

    pub fn as_str(self) -> (value: &'static str)
        ensures
            value@ == kind_text(self),
    {
        match self {
            ProcessorKind::Stripe => "stripe",
            ProcessorKind::Paypal => "paypal",
        }
    }
}

/// A processor kind is read back from its spelling, and from no other text.
pub proof fn kind_round_trip(kind: ProcessorKind, value: Seq<char>)
    ensures
        kind_of(kind_text(kind)) == Some(kind),
        kind_of(value) == Some(kind) ==> value == kind_text(kind),
{
    reveal_strlit("stripe");
    reveal_strlit("paypal");
    assert("stripe"@[0] == 's' && "paypal"@[0] == 'p');
}

/// The configured processor plugins. Either may be absent; with neither
/// configured the whole fiat path is disabled.
pub struct Processors {
    pub stripe: Option<StripeProcessor>,
    pub paypal: Option<PaypalProcessor>,
}

impl Processors {
    pub open spec fn has(self, kind: ProcessorKind) -> bool {
        match kind {
            ProcessorKind::Stripe => self.stripe is Some,
            ProcessorKind::Paypal => self.paypal is Some,
        }
    }

    /// The only configured processor.
    pub open spec fn sole(self) -> Option<ProcessorKind> {
        if self.has(ProcessorKind::Stripe) && !self.has(ProcessorKind::Paypal) {
            Some(ProcessorKind::Stripe)
        } else if self.has(ProcessorKind::Paypal) && !self.has(ProcessorKind::Stripe) {
            Some(ProcessorKind::Paypal)
        } else {
            None
        }
    }

    pub open spec fn any(self) -> bool {
        exists|kind: ProcessorKind| self.has(kind)
    }

    pub fn any_configured(&self) -> (any: bool)
        ensures
            any == self.any(),
    {
        let any: bool = self.stripe.is_some() || self.paypal.is_some();
        proof {
            assert(self.has(ProcessorKind::Stripe) == self.stripe is Some);
            assert(self.has(ProcessorKind::Paypal) == self.paypal is Some);
        }
        any
    }

    pub fn is_configured(&self, kind: ProcessorKind) -> (configured: bool)
        ensures
            configured == self.has(kind),
    {
        match kind {
            ProcessorKind::Stripe => self.stripe.is_some(),
            ProcessorKind::Paypal => self.paypal.is_some(),
        }
    }

    /// The single configured processor, when exactly one is configured.
    /// Invoice-time minting is eager only in that case; with both configured
    /// the mint waits for the buyer's checkout request.
    pub fn sole_configured(&self) -> (kind: Option<ProcessorKind>)
        ensures
            kind == self.sole(),
    {
        if self.stripe.is_some() && self.paypal.is_none() {
            Some(ProcessorKind::Stripe)
        } else if self.paypal.is_some() && self.stripe.is_none() {
            Some(ProcessorKind::Paypal)
        } else {
            None
        }
    }

    /// The processor of an unbound checkout that names none: the only
    /// configured one, or the one that is spelled in the configuration.
    pub fn effective_default(&self, spelled: &str) -> (kind: Option<ProcessorKind>)
        ensures
            kind == (match self.sole() {
                Some(kind) => Some(kind),
                None => kind_of(spelled@),
            }),
            self.stripe is Some && self.paypal is None ==> kind == Some(ProcessorKind::Stripe),
            self.paypal is Some && self.stripe is None ==> kind == Some(ProcessorKind::Paypal),
            (self.stripe is Some) == (self.paypal is Some) ==> {
                &&& spelled@ == "stripe"@ ==> kind == Some(ProcessorKind::Stripe)
                &&& spelled@ == "paypal"@ ==> kind == Some(ProcessorKind::Paypal)
                &&& spelled@ != "stripe"@ && spelled@ != "paypal"@ ==> kind is None
            },
    {
        proof {
            kind_round_trip(ProcessorKind::Paypal, spelled@);
        }
        match self.sole_configured() {
            Some(kind) => Some(kind),
            None => ProcessorKind::parse(spelled),
        }
    }
}

/// The processor that a row is bound to.
pub open spec fn bound(row: CorrelationModel) -> Option<ProcessorKind> {
    match row.processor {
        Some(value) => kind_of(value),
        None => match row.session_id {
            Some(_) => Some(ProcessorKind::Stripe),
            None => None,
        },
    }
}

/// The processor a correlation is bound to. A session without a processor is a
/// Stripe session; a row without a session is not bound yet.
pub fn bound_processor(correlation: &Correlation) -> (kind: Option<ProcessorKind>)
    ensures
        kind == bound(correlation@),
{
    match &correlation.processor {
        Some(value) => ProcessorKind::parse(value),
        None => match &correlation.session_id {
            Some(_) => Some(ProcessorKind::Stripe),
            None => None,
        },
    }
}

#[derive(Clone, Copy, Debug, PartialEq, Eq, Structural)]
pub enum PullOutcome {
    /// The processor's read API says paid; carries the amount check.
    Paid { amount_matched: bool },
    Unpaid,
    /// Transport or processor error: state must not move.
    Unavailable,
}

impl View for PullOutcome {
    type V = PullOutcome;

    open spec fn view(&self) -> PullOutcome {
        *self
    }
}

/// What one read of the processor's API established.
pub enum Pulled {
    Paid {
        amount_matched: bool,
        /// Payment reference kept for reversal lookups: the Stripe payment
        /// intent, the PayPal capture id.
        payment_reference: Option<String>,
    },
    Unpaid,
}

pub enum PulledModel {
    Paid { amount_matched: bool, payment_reference: Option<Seq<char>> },
    Unpaid,
}

impl View for Pulled {
    type V = PulledModel;

    open spec fn view(&self) -> PulledModel {
        match self {
            Pulled::Paid { amount_matched, payment_reference } => PulledModel::Paid {
                amount_matched: *amount_matched,
                payment_reference: text::text_opt(*payment_reference),
            },
            Pulled::Unpaid => PulledModel::Unpaid,
        }
    }
}

/// Whether a session was paid for exactly the row's amount and asset.
pub open spec fn session_matches(session: CheckoutSession, row: CorrelationModel) -> bool {
    &&& store::integer(session.amount_total) == Some(row.amount_minor)
    &&& text::text_opt(session.currency) matches Some(currency) && text::lower(currency)
        == text::lower(row.asset)
}

/// What a session says about a row.
pub open spec fn judged_session(session: CheckoutSession, row: CorrelationModel) -> PulledModel {
    if text::text_opt(session.payment_status) == Some("paid"@) {
        PulledModel::Paid {
            amount_matched: session_matches(session, row),
            payment_reference: text::text_opt(session.payment_intent),
        }
    } else {
        PulledModel::Unpaid
    }
}

/// Whether a capture is for exactly the row's amount and asset.
pub open spec fn capture_matches(capture: Capture, row: CorrelationModel) -> bool {
    capture.amount matches Some(amount) && text::lower(amount.currency_code@) == text::lower(
        row.asset,
    ) && money::minor_amount(row.asset, amount.value@) == Some(row.amount_minor)
}

/// What a completed order says about a row: the order alone is not payment, its
/// capture must be completed too.
pub open spec fn judged_order(order: Order, row: CorrelationModel) -> PulledModel {
    match paypal::first_completed(paypal::all_captures(order.purchase_units@)) {
        Some(capture) => PulledModel::Paid {
            amount_matched: capture_matches(capture, row),
            payment_reference: Some(capture.id@),
        },
        None => PulledModel::Unpaid,
    }
}

/// Judges a session that was read from the API.
pub fn judge_session(session: &CheckoutSession, correlation: &Correlation) -> (pulled: Pulled)
    ensures
        pulled@ == judged_session(*session, correlation@),
{
    let paid: bool = match &session.payment_status {
        Some(status) => text::same_text(status, "paid"),
        None => false,
    };
    if !paid {
        return Pulled::Unpaid;
    }
    let amount: bool = match session.amount_total {
        Some(amount) => amount == correlation.amount_minor,
        None => false,
    };
    let currency: bool = match &session.currency {
        Some(currency) => text::same_text_any_case(currency, &correlation.asset),
        None => false,
    };
    Pulled::Paid {
        amount_matched: amount && currency,
        payment_reference: text::copy_text_opt(&session.payment_intent),
    }
}

/// Judges a completed order.
pub fn judge_order(order: &Order, correlation: &Correlation) -> (pulled: Pulled)
    ensures
        pulled@ == judged_order(*order, correlation@),
{
    match order.completed_capture() {
        Some(capture) => {
            let amount_matched: bool = match &capture.amount {
                Some(amount) => {
                    text::same_text_any_case(&amount.currency_code, &correlation.asset) && (
                    match money::decimal_to_minor(&correlation.asset, &amount.value) {
                        Some(minor) => minor == correlation.amount_minor,
                        None => false,
                    })
                },
                None => false,
            };
            Pulled::Paid { amount_matched, payment_reference: Some(capture.id.clone()) }
        },
        None => Pulled::Unpaid,
    }
}

/// A pull under way.
pub struct Pull {
    pub correlation: Correlation,
    pub now: Timestamp,
    pub stage: PullStage,
}

/// What a pull waits for.
#[derive(Clone, Copy, Debug, PartialEq, Eq, Structural)]
pub enum PullStage {
    Session,
    Order,
    /// The explicit capture of an approved order.
    Capture,
    /// The paid observation is being recorded.
    Recording { amount_matched: bool },
}

pub struct PullModel {
    pub row: CorrelationModel,
    pub now: int,
    pub stage: PullStage,
}

impl View for Pull {
    type V = PullModel;

    open spec fn view(&self) -> PullModel {
        PullModel { row: self.correlation@, now: self.now@, stage: self.stage }
    }
}

/// The request id of an explicit capture: one per order.
pub open spec fn capture_key(order_id: Seq<char>) -> Seq<char> {
    "cap-"@ + order_id
}

/// The first action of a pull: a read on the processor that the row is bound
/// to.
pub open spec fn pull_start(processors: Processors, row: CorrelationModel, now: int) -> TurnModel<
    PullModel,
    PullOutcome,
> {
    match bound(row) {
        None => TurnModel::Done(PullOutcome::Unpaid),
        Some(kind) => if !processors.has(kind) {
            TurnModel::Done(PullOutcome::Unavailable)
        } else {
            match row.session_id {
                None => TurnModel::Done(PullOutcome::Unpaid),
                Some(session_id) => match kind {
                    ProcessorKind::Stripe => TurnModel::Perform(
                        PullModel { row, now, stage: PullStage::Session },
                        ActionModel::RetrieveSession { session_id },
                    ),
                    ProcessorKind::Paypal => TurnModel::Perform(
                        PullModel { row, now, stage: PullStage::Order },
                        ActionModel::RetrieveOrder { order_id: session_id },
                    ),
                },
            }
        },
    }
}

/// What follows from a judgement: a created row that was paid is recorded as
/// paid.
pub open spec fn pull_applied(pull: PullModel, pulled: PulledModel) -> TurnModel<
    PullModel,
    PullOutcome,
> {
    match pulled {
        PulledModel::Unpaid => TurnModel::Done(PullOutcome::Unpaid),
        PulledModel::Paid { amount_matched, payment_reference } => if pull.row.state
            == CorrelationState::Created {
            TurnModel::Perform(
                PullModel { stage: PullStage::Recording { amount_matched }, ..pull },
                ActionModel::MarkPaid {
                    creator: pull.row.creator,
                    bundle_id: pull.row.bundle_id,
                    amount_matched,
                    payment_intent: payment_reference,
                    paid_at: pull.now,
                },
            )
        } else {
            TurnModel::Done(PullOutcome::Paid { amount_matched })
        },
    }
}

/// The next turn of a pull.
pub open spec fn pull_step(pull: PullModel, event: Event) -> TurnModel<PullModel, PullOutcome> {
    match (pull.stage, event) {
        (PullStage::Session, Event::Session(Ok(session))) => pull_applied(
            pull,
            judged_session(session, pull.row),
        ),
        (PullStage::Order, Event::Order(Ok(order))) => if text::text_opt(order.status) == Some(
            "COMPLETED"@,
        ) {
            pull_applied(pull, judged_order(order, pull.row))
        } else if text::text_opt(order.status) == Some("APPROVED"@) && pull.row.session_id is Some {
            TurnModel::Perform(
                PullModel { stage: PullStage::Capture, ..pull },
                ActionModel::CaptureOrder {
                    order_id: pull.row.session_id->0,
                    request_id: capture_key(pull.row.session_id->0),
                },
            )
        } else {
            TurnModel::Done(PullOutcome::Unpaid)
        },
        (PullStage::Capture, Event::Order(Ok(order))) => if text::text_opt(order.status) == Some(
            "COMPLETED"@,
        ) {
            pull_applied(pull, judged_order(order, pull.row))
        } else {
            TurnModel::Done(PullOutcome::Unpaid)
        },
        (PullStage::Recording { amount_matched }, Event::Marked(Ok(_))) => TurnModel::Done(
            PullOutcome::Paid { amount_matched },
        ),
        _ => TurnModel::Done(PullOutcome::Unavailable),
    }
}

/// Pulls the correlation's session or order from its bound processor, to
/// record the verified fact.
pub fn pull_and_apply(processors: &Processors, correlation: Correlation, now: Timestamp) -> (turn:
    Turn<Pull, PullOutcome>)
    ensures
        turn@ == pull_start(*processors, correlation@, now@),
{
    let kind: ProcessorKind = match bound_processor(&correlation) {
        Some(kind) => kind,
        None => return Turn::Done(PullOutcome::Unpaid),
    };
    if !processors.is_configured(kind) {
        return Turn::Done(PullOutcome::Unavailable);
    }
    let session_id: String = match &correlation.session_id {
        Some(session_id) => session_id.clone(),
        None => return Turn::Done(PullOutcome::Unpaid),
    };
    match kind {
        ProcessorKind::Stripe => Turn::Perform(
            Pull { correlation, now, stage: PullStage::Session },
            Action::RetrieveSession { session_id },
        ),
        ProcessorKind::Paypal => Turn::Perform(
            Pull { correlation, now, stage: PullStage::Order },
            Action::RetrieveOrder { order_id: session_id },
        ),
    }
}

impl Pull {
    fn apply(self, pulled: Pulled) -> (turn: Turn<Pull, PullOutcome>)
        ensures
            turn@ == pull_applied(self@, pulled@),
    {
        match pulled {
            Pulled::Unpaid => Turn::Done(PullOutcome::Unpaid),
            Pulled::Paid { amount_matched, payment_reference } => {
                if self.correlation.state == CorrelationState::Created {
                    let action: Action = Action::MarkPaid {
                        creator: self.correlation.creator.clone(),
                        bundle_id: self.correlation.bundle_id.clone(),
                        amount_matched,
                        payment_intent: payment_reference,
                        paid_at: self.now,
                    };
                    Turn::Perform(
                        Pull {
                            correlation: self.correlation,
                            now: self.now,
                            stage: PullStage::Recording { amount_matched },
                        },
                        action,
                    )
                } else {
                    Turn::Done(PullOutcome::Paid { amount_matched })
                }
            },
        }
    }

    /// The next turn of the pull. An answer that does not fit counts as a
    /// failed one.
    pub fn step(self, event: &Event) -> (turn: Turn<Pull, PullOutcome>)
        ensures
            turn@ == pull_step(self@, *event),
    {
        match (self.stage, event) {
            (PullStage::Session, Event::Session(Ok(session))) => {
                let pulled: Pulled = judge_session(session, &self.correlation);
                self.apply(pulled)
            },
            (PullStage::Order, Event::Order(Ok(order))) => {
                let (completed, approved): (bool, bool) = match &order.status {
                    Some(status) => (
                        text::same_text(status, "COMPLETED"),
                        text::same_text(status, "APPROVED"),
                    ),
                    None => (false, false),
                };
                if completed {
                    let pulled: Pulled = judge_order(order, &self.correlation);
                    return self.apply(pulled);
                }
                let order_id: String = match &self.correlation.session_id {
                    Some(order_id) => order_id.clone(),
                    None => return Turn::Done(PullOutcome::Unpaid),
                };
                if !approved {
                    return Turn::Done(PullOutcome::Unpaid);
                }
                let request_id: String = text::joined("cap-", &order_id);
                Turn::Perform(
                    Pull {
                        correlation: self.correlation,
                        now: self.now,
                        stage: PullStage::Capture,
                    },
                    Action::CaptureOrder { order_id, request_id },
                )
            },
            (PullStage::Capture, Event::Order(Ok(order))) => {
                let completed: bool = match &order.status {
                    Some(status) => text::same_text(status, "COMPLETED"),
                    None => false,
                };
                if !completed {
                    return Turn::Done(PullOutcome::Unpaid);
                }
                let pulled: Pulled = judge_order(order, &self.correlation);
                self.apply(pulled)
            },
            (PullStage::Recording { amount_matched }, Event::Marked(Ok(_))) => Turn::Done(
                PullOutcome::Paid { amount_matched },
            ),
            _ => Turn::Done(PullOutcome::Unavailable),
        }
    }
}

/// A promotion under way.
pub struct Promotion {
    pub creator: String,
    pub bundle_id: String,
    pub now: Timestamp,
    pub stage: PromotionStage,
}

/// What a promotion waits for.
pub enum PromotionStage {
    Pulling(Pull),
    Confirming,
}

pub struct PromotionModel {
    pub creator: Seq<char>,
    pub bundle_id: Seq<char>,
    pub now: int,
    pub stage: PromotionStageModel,
}

pub enum PromotionStageModel {
    Pulling(PullModel),
    Confirming,
}

impl View for Promotion {
    type V = PromotionModel;

    open spec fn view(&self) -> PromotionModel {
        PromotionModel {
            creator: self.creator@,
            bundle_id: self.bundle_id@,
            now: self.now@,
            stage: match self.stage {
                PromotionStage::Pulling(pull) => PromotionStageModel::Pulling(pull@),
                PromotionStage::Confirming => PromotionStageModel::Confirming,
            },
        }
    }
}

/// What follows from a turn of the promotion's pull: a matched payment is
/// confirmed, anything else ends the promotion.
pub open spec fn promotion_pulled(
    creator: Seq<char>,
    bundle_id: Seq<char>,
    now: int,
    turn: TurnModel<PullModel, PullOutcome>,
) -> TurnModel<PromotionModel, bool> {
    match turn {
        TurnModel::Perform(pull, action) => TurnModel::Perform(
            PromotionModel { creator, bundle_id, now, stage: PromotionStageModel::Pulling(pull) },
            action,
        ),
        TurnModel::Done(PullOutcome::Paid { amount_matched: true }) => TurnModel::Perform(
            PromotionModel { creator, bundle_id, now, stage: PromotionStageModel::Confirming },
            ActionModel::MarkConfirmed { creator, bundle_id, confirmed_at: now },
        ),
        TurnModel::Done(_) => TurnModel::Done(false),
    }
}

/// The first turn of a promotion.
pub open spec fn promotion_start(
    processors: Processors,
    row: CorrelationModel,
    now: int,
) -> TurnModel<PromotionModel, bool> {
    promotion_pulled(row.creator, row.bundle_id, now, pull_start(processors, row, now))
}

/// The next turn of a promotion.
pub open spec fn promotion_step(promotion: PromotionModel, event: Event) -> TurnModel<
    PromotionModel,
    bool,
> {
    match promotion.stage {
        PromotionStageModel::Pulling(pull) => promotion_pulled(
            promotion.creator,
            promotion.bundle_id,
            promotion.now,
            pull_step(pull, event),
        ),
        PromotionStageModel::Confirming => TurnModel::Done(event matches Event::Marked(Ok(_))),
    }
}

fn promote(creator: String, bundle_id: String, now: Timestamp, turn: Turn<Pull, PullOutcome>) -> (next:
    Turn<Promotion, bool>)
    ensures
        next@ == promotion_pulled(creator@, bundle_id@, now@, turn@),
{
    match turn {
        Turn::Perform(pull, action) => Turn::Perform(
            Promotion { creator, bundle_id, now, stage: PromotionStage::Pulling(pull) },
            action,
        ),
        Turn::Done(PullOutcome::Paid { amount_matched: true }) => {
            let action: Action = Action::MarkConfirmed {
                creator: creator.clone(),
                bundle_id: bundle_id.clone(),
                confirmed_at: now,
            };
            Turn::Perform(
                Promotion { creator, bundle_id, now, stage: PromotionStage::Confirming },
                action,
            )
        },
        Turn::Done(_) => Turn::Done(false),
    }
}

/// Fresh-pull promotion, for a correlation whose settlement delay has elapsed.
/// Ends with `true` only if the pull still says paid and matched, and the
/// confirmation was recorded.
pub fn promote_if_still_paid(processors: &Processors, correlation: Correlation, now: Timestamp) -> (turn:
    Turn<Promotion, bool>)
    ensures
        turn@ == promotion_start(*processors, correlation@, now@),
{
    let creator: String = correlation.creator.clone();
    let bundle_id: String = correlation.bundle_id.clone();
    promote(creator, bundle_id, now, pull_and_apply(processors, correlation, now))
}

impl Promotion {
    /// The next turn of the promotion.
    pub fn step(self, event: &Event) -> (turn: Turn<Promotion, bool>)
        ensures
            turn@ == promotion_step(self@, *event),
    {
        match self.stage {
            PromotionStage::Pulling(pull) => promote(
                self.creator,
                self.bundle_id,
                self.now,
                pull.step(event),
            ),
            PromotionStage::Confirming => match event {
                Event::Marked(Ok(_)) => Turn::Done(true),
                _ => Turn::Done(false),
            },
        }
    }
}

} // verus!
