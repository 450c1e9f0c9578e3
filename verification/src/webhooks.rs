//! Processor webhooks: verified, deduplicated, and then only a hint. What a
//! webhook claims is never believed; it names what to read from the
//! processor's API.

use crate::api_call::Postback;
use crate::auth;
use crate::auth::Headers;
use crate::clock;
use crate::clock::Span;
use crate::clock::Timestamp;
use crate::effects::Action;
use crate::effects::ActionModel;
use crate::effects::Event;
use crate::effects::Reply;
use crate::effects::ReplyModel;
use crate::effects::Turn;
use crate::effects::TurnModel;
use crate::error::ApiError;
use crate::http;
use crate::http::AppState;
use crate::json;
use crate::json::Json;
use crate::json::JsonModel;
use crate::paypal;
use crate::paypal::Capture;
use crate::paypal::DisputedTransaction;
use crate::paypal::WebhookHeaders;
use crate::stripe;
use crate::stripe::Charge;
use crate::stripe::StripeProcessor;
use crate::text;
use crate::verification;
use crate::verification::Pull;
use crate::verification::PullModel;
use crate::verification::PullOutcome;
use vstd::prelude::*;

verus! {

/// What a webhook names.
#[derive(Debug)]
pub enum Hint {
    /// A correlation that may have been paid.
    Payment { creator: String, bundle_id: String },
    /// A Stripe charge that may have been reversed.
    Charge { charge_id: String },
    /// A PayPal capture that may have been reversed.
    Capture { capture_id: String },
    /// A PayPal dispute.
    Dispute { dispute_id: String },
    Nothing,
}

pub enum HintModel {
    Payment { creator: Seq<char>, bundle_id: Seq<char> },
    Charge { charge_id: Seq<char> },
    Capture { capture_id: Seq<char> },
    Dispute { dispute_id: Seq<char> },
    Nothing,
}

impl View for Hint {
    type V = HintModel;

    open spec fn view(&self) -> HintModel {
        match self {
            Hint::Payment { creator, bundle_id } => HintModel::Payment {
                creator: creator@,
                bundle_id: bundle_id@,
            },
            Hint::Charge { charge_id } => HintModel::Charge { charge_id: charge_id@ },
            Hint::Capture { capture_id } => HintModel::Capture { capture_id: capture_id@ },
            Hint::Dispute { dispute_id } => HintModel::Dispute { dispute_id: dispute_id@ },
            Hint::Nothing => HintModel::Nothing,
        }
    }
}

/// A webhook delivery with its identity.
#[derive(Debug)]
pub struct Delivery {
    pub event_id: String,
    pub event_type: String,
    pub hint: Hint,
}

pub struct DeliveryModel {
    pub event_id: Seq<char>,
    pub event_type: Seq<char>,
    pub hint: HintModel,
}

impl View for Delivery {
    type V = DeliveryModel;

    open spec fn view(&self) -> DeliveryModel {
        DeliveryModel {
            event_id: self.event_id@,
            event_type: self.event_type@,
            hint: self.hint@,
        }
    }
}

/// The delivery of an optional delivery.
pub open spec fn delivery_opt(delivery: Option<Delivery>) -> Option<DeliveryModel> {
    match delivery {
        Some(delivery) => Some(delivery@),
        None => None,
    }
}

/// The value of an optional member, or null.
pub open spec fn or_null(value: Option<JsonModel>) -> JsonModel {
    match value {
        Some(value) => value,
        None => JsonModel::Null,
    }
}

/// The correlation that a client reference names.
pub open spec fn referenced(reference: Option<Seq<char>>) -> HintModel {
    match reference {
        Some(reference) => match text::split_once(reference, '_') {
            Some((creator, bundle_id)) => HintModel::Payment { creator, bundle_id },
            None => HintModel::Nothing,
        },
        None => HintModel::Nothing,
    }
}

/// What a Stripe event names.
pub open spec fn stripe_hint(event: JsonModel, event_type: Seq<char>) -> HintModel {
    let object = or_null(json::member(or_null(json::member(event, "data"@)), "object"@));
    if event_type == "checkout.session.completed"@ || event_type
        == "checkout.session.async_payment_succeeded"@ {
        referenced(json::member_text(object, "client_reference_id"@))
    } else if event_type == "charge.refunded"@ || event_type == "charge.dispute.created"@ {
        match json::member_text(object, "id"@) {
            Some(charge_id) => HintModel::Charge { charge_id },
            None => HintModel::Nothing,
        }
    } else {
        HintModel::Nothing
    }
}

/// A Stripe event with its identity, if it has one.
pub open spec fn stripe_delivery(event: JsonModel) -> Option<DeliveryModel> {
    match (json::member_text(event, "id"@), json::member_text(event, "type"@)) {
        (Some(event_id), Some(event_type)) => Some(
            DeliveryModel { event_id, event_type, hint: stripe_hint(event, event_type) },
        ),
        _ => None,
    }
}

/// What the path segment `0` selects: the first element of a list, or a member
/// of that name.
pub open spec fn at_zero(value: JsonModel) -> Option<JsonModel> {
    match value {
        JsonModel::List(_) => json::element(value, 0),
        _ => json::member(value, "0"@),
    }
}

/// The reference that a PayPal resource carries: its own, or that of its first
/// purchase unit.
pub open spec fn paypal_reference(resource: JsonModel) -> Option<Seq<char>> {
    match json::member_text(resource, "custom_id"@) {
        Some(reference) => Some(reference),
        None => json::member_text(
            or_null(at_zero(or_null(json::member(resource, "purchase_units"@)))),
            "custom_id"@,
        ),
    }
}

/// What a PayPal event names.
pub open spec fn paypal_hint(event: JsonModel, event_type: Seq<char>) -> HintModel {
    let resource = or_null(json::member(event, "resource"@));
    if event_type == "CHECKOUT.ORDER.APPROVED"@ || event_type == "CHECKOUT.ORDER.COMPLETED"@
        || event_type == "PAYMENT.CAPTURE.COMPLETED"@ || event_type == "PAYMENT.CAPTURE.PENDING"@ {
        referenced(paypal_reference(resource))
    } else if event_type == "PAYMENT.CAPTURE.REFUNDED"@ || event_type == "PAYMENT.CAPTURE.REVERSED"@
        || event_type == "PAYMENT.CAPTURE.DENIED"@ {
        match http::reversed_capture(resource) {
            Some(capture_id) => HintModel::Capture { capture_id },
            None => HintModel::Nothing,
        }
    } else if event_type == "CUSTOMER.DISPUTE.CREATED"@ {
        match json::member_text(resource, "dispute_id"@) {
            Some(dispute_id) => HintModel::Dispute { dispute_id },
            None => HintModel::Nothing,
        }
    } else {
        HintModel::Nothing
    }
}

/// A PayPal event with its identity, if it has one.
pub open spec fn paypal_delivery(event: JsonModel) -> Option<DeliveryModel> {
    match (json::member_text(event, "id"@), json::member_text(event, "event_type"@)) {
        (Some(event_id), Some(event_type)) => Some(
            DeliveryModel { event_id, event_type, hint: paypal_hint(event, event_type) },
        ),
        _ => None,
    }
}

/// A webhook under way, by what it waits for.
pub enum Webhook {
    /// PayPal is being asked whether it sent the delivery with this body.
    Verifying(Vec<u8>),
    Recording(Hint),
    /// The named correlation is being read.
    Looking(Timestamp),
    Pulling(Pull),
    Charge,
    Capture,
    Dispute,
    /// A reversed correlation is being looked up; more captures may follow.
    Finding(Vec<String>),
    /// A reversal is being recorded; more captures may follow.
    Marking(Vec<String>),
}

pub enum WebhookModel {
    Verifying(Seq<u8>),
    Recording(HintModel),
    Looking(int),
    Pulling(PullModel),
    Charge,
    Capture,
    Dispute,
    Finding(Seq<Seq<char>>),
    Marking(Seq<Seq<char>>),
}

impl View for Webhook {
    type V = WebhookModel;

    open spec fn view(&self) -> WebhookModel {
        match self {
            Webhook::Verifying(raw_body) => WebhookModel::Verifying(raw_body@),
            Webhook::Recording(hint) => WebhookModel::Recording(hint@),
            Webhook::Looking(now) => WebhookModel::Looking(now@),
            Webhook::Pulling(pull) => WebhookModel::Pulling(pull@),
            Webhook::Charge => WebhookModel::Charge,
            Webhook::Capture => WebhookModel::Capture,
            Webhook::Dispute => WebhookModel::Dispute,
            Webhook::Finding(pending) => WebhookModel::Finding(text::texts(pending@)),
            Webhook::Marking(pending) => WebhookModel::Marking(text::texts(pending@)),
        }
    }
}

/// A webhook that ends with an error.
pub open spec fn webhook_fault(error: ApiError) -> TurnModel<WebhookModel, ReplyModel> {
    TurnModel::Done(ReplyModel::Fault(error))
}

/// A webhook that was taken.
pub open spec fn webhook_received() -> TurnModel<WebhookModel, ReplyModel> {
    TurnModel::Done(ReplyModel::Received { duplicate: false })
}

/// A verified delivery is recorded by its event id.
pub open spec fn webhook_identified(delivery: Option<DeliveryModel>) -> TurnModel<
    WebhookModel,
    ReplyModel,
> {
    match delivery {
        None => webhook_fault(ApiError::InvalidRequest),
        Some(delivery) => TurnModel::Perform(
            WebhookModel::Recording(delivery.hint),
            ActionModel::RecordWebhookEvent {
                event_id: delivery.event_id,
                event_type: delivery.event_type,
            },
        ),
    }
}

/// The first turn of a Stripe delivery, given the verdict on its signature and
/// the event that its body parses into.
pub open spec fn stripe_judged(
    app: AppState,
    signature: Option<Seq<char>>,
    accepted: bool,
    event: Option<JsonModel>,
) -> TurnModel<WebhookModel, ReplyModel> {
    if !(app.processors.stripe matches Some(stripe) && stripe.webhook() is Some) {
        webhook_fault(ApiError::Unavailable)
    } else if signature is None || !accepted {
        webhook_fault(ApiError::InvalidSignature)
    } else {
        match event {
            Some(event) => webhook_identified(stripe_delivery(event)),
            None => webhook_fault(ApiError::InvalidRequest),
        }
    }
}

/// Whether a Stripe delivery is signed with the configured secret.
pub open spec fn stripe_accepted(
    app: AppState,
    signature: Option<Seq<char>>,
    raw_body: Seq<u8>,
    now: int,
) -> bool {
    app.processors.stripe matches Some(stripe) && stripe.webhook() matches Some(secret)
        && signature matches Some(signature) && stripe::webhook_verdict(
        secret,
        signature,
        raw_body,
        clock::unix_seconds(now),
        http::WEBHOOK_TOLERANCE_SECONDS * 1_000_000_000,
    ) is Ok
}

/// The first turn of a raw Stripe delivery.
pub open spec fn stripe_webhook_start(
    app: AppState,
    headers: Seq<(Seq<char>, Seq<u8>)>,
    raw_body: Seq<u8>,
    now: int,
) -> TurnModel<WebhookModel, ReplyModel> {
    let signature = auth::header_text(headers, "stripe-signature"@);
    stripe_judged(
        app,
        signature,
        stripe_accepted(app, signature, raw_body, now),
        json::parsed_json(raw_body),
    )
}

/// The headers of a PayPal delivery, if all of them are there.
pub open spec fn transmission(headers: Seq<(Seq<char>, Seq<u8>)>) -> Option<
    (Seq<char>, Seq<char>, Seq<char>, Seq<char>, Seq<char>),
> {
    match (
        auth::header_text(headers, "paypal-transmission-id"@),
        auth::header_text(headers, "paypal-transmission-time"@),
        auth::header_text(headers, "paypal-transmission-sig"@),
        auth::header_text(headers, "paypal-cert-url"@),
        auth::header_text(headers, "paypal-auth-algo"@),
    ) {
        (Some(id), Some(time), Some(sig), Some(cert_url), Some(auth_algo)) => Some(
            (id, time, sig, cert_url, auth_algo),
        ),
        _ => None,
    }
}

/// The first turn of a PayPal delivery, given the JSON text of its body: PayPal
/// is asked whether it sent it.
pub open spec fn paypal_judged(
    app: AppState,
    headers: Seq<(Seq<char>, Seq<u8>)>,
    raw_body: Seq<u8>,
    raw_event: Option<Seq<char>>,
) -> TurnModel<WebhookModel, ReplyModel> {
    match app.processors.paypal {
        None => webhook_fault(ApiError::Unavailable),
        Some(paypal) => match paypal.webhook() {
            None => webhook_fault(ApiError::Unavailable),
            Some(webhook_id) => match transmission(headers) {
                None => webhook_fault(ApiError::InvalidSignature),
                Some((id, time, sig, cert_url, auth_algo)) => match raw_event {
                    None => webhook_fault(ApiError::Unavailable),
                    Some(raw_event) => TurnModel::Perform(
                        WebhookModel::Verifying(raw_body),
                        ActionModel::VerifyWebhook(
                            crate::api_call::PostbackModel {
                                auth_algo,
                                cert_url,
                                transmission_id: id,
                                transmission_sig: sig,
                                transmission_time: time,
                                webhook_id,
                                webhook_event: raw_event,
                            },
                        ),
                    ),
                },
            },
        },
    }
}

/// The first turn of a raw PayPal delivery.
pub open spec fn paypal_webhook_start(
    app: AppState,
    headers: Seq<(Seq<char>, Seq<u8>)>,
    raw_body: Seq<u8>,
) -> TurnModel<WebhookModel, ReplyModel> {
    paypal_judged(app, headers, raw_body, json::raw_document(raw_body))
}

/// The turn that an attested PayPal delivery leads to, given the event that its
/// body parses into.
pub open spec fn paypal_attested(event: Option<JsonModel>) -> TurnModel<WebhookModel, ReplyModel> {
    match event {
        Some(event) => webhook_identified(paypal_delivery(event)),
        None => webhook_fault(ApiError::InvalidRequest),
    }
}

/// A new delivery is followed up by a read of what it names.
pub open spec fn webhook_followed(hint: HintModel, now: int) -> TurnModel<WebhookModel, ReplyModel> {
    match hint {
        HintModel::Payment { creator, bundle_id } => TurnModel::Perform(
            WebhookModel::Looking(now),
            ActionModel::Get { creator, bundle_id },
        ),
        HintModel::Charge { charge_id } => TurnModel::Perform(
            WebhookModel::Charge,
            ActionModel::RetrieveCharge { charge_id },
        ),
        HintModel::Capture { capture_id } => TurnModel::Perform(
            WebhookModel::Capture,
            ActionModel::RetrieveCapture { capture_id },
        ),
        HintModel::Dispute { dispute_id } => TurnModel::Perform(
            WebhookModel::Dispute,
            ActionModel::RetrieveDispute { dispute_id },
        ),
        HintModel::Nothing => webhook_received(),
    }
}

/// A turn of the pull: whatever it established, the delivery was taken.
pub open spec fn webhook_pulling(turn: TurnModel<PullModel, PullOutcome>) -> TurnModel<
    WebhookModel,
    ReplyModel,
> {
    match turn {
        TurnModel::Perform(pull, action) => TurnModel::Perform(
            WebhookModel::Pulling(pull),
            action,
        ),
        TurnModel::Done(_) => webhook_received(),
    }
}

/// Only a charge that was really refunded or disputed leads on.
pub open spec fn charge_judged(charge: Charge) -> TurnModel<WebhookModel, ReplyModel> {
    match charge.payment_intent {
        Some(payment_intent) => if charge.refunded || charge.disputed {
            TurnModel::Perform(
                WebhookModel::Finding(Seq::empty()),
                ActionModel::FindByPaymentIntent { reference: payment_intent@ },
            )
        } else {
            webhook_received()
        },
        None => webhook_received(),
    }
}

/// Only a capture that was really reversed leads on, by its reference or by its
/// own id.
pub open spec fn capture_judged(capture: Capture) -> TurnModel<WebhookModel, ReplyModel> {
    if !http::is_reversal(text::text_opt(capture.status)) {
        webhook_received()
    } else {
        match referenced(text::text_opt(capture.custom_id)) {
            HintModel::Payment { creator, bundle_id } => TurnModel::Perform(
                WebhookModel::Finding(Seq::empty()),
                ActionModel::Get { creator, bundle_id },
            ),
            _ => TurnModel::Perform(
                WebhookModel::Finding(Seq::empty()),
                ActionModel::FindByPaymentIntent { reference: capture.id@ },
            ),
        }
    }
}

/// The captures that a dispute's transactions name, in order.
pub open spec fn disputed_captures(transactions: Seq<DisputedTransaction>) -> Seq<Seq<char>>
    decreases transactions.len(),
{
    if transactions.len() == 0 {
        Seq::empty()
    } else {
        let front = disputed_captures(transactions.drop_last());
        match transactions.last().seller_transaction_id {
            Some(id) => front.push(id@),
            None => front,
        }
    }
}

/// The next of the captures to be looked up.
pub open spec fn webhook_next(pending: Seq<Seq<char>>) -> TurnModel<WebhookModel, ReplyModel> {
    if pending.len() == 0 {
        webhook_received()
    } else {
        TurnModel::Perform(
            WebhookModel::Finding(pending.skip(1)),
            ActionModel::FindByPaymentIntent { reference: pending[0] },
        )
    }
}

/// The next turn of a webhook.
pub open spec fn webhook_step(
    app: AppState,
    webhook: WebhookModel,
    event: Event,
    now: int,
) -> TurnModel<WebhookModel, ReplyModel> {
    match (webhook, event) {
        (WebhookModel::Verifying(raw_body), Event::Attested(Ok(attested))) => if attested {
            paypal_attested(json::parsed_json(raw_body))
        } else {
            webhook_fault(ApiError::InvalidSignature)
        },
        (WebhookModel::Verifying(_), _) => webhook_fault(ApiError::Unavailable),
        (WebhookModel::Recording(hint), Event::Recorded(Ok(is_new))) => if is_new {
            webhook_followed(hint, now)
        } else {
            TurnModel::Done(ReplyModel::Received { duplicate: true })
        },
        (WebhookModel::Recording(_), _) => webhook_fault(ApiError::Unavailable),
        (WebhookModel::Looking(looked_at), Event::Row(Ok(Some(row)))) => webhook_pulling(
            verification::pull_start(app.processors, row@, looked_at),
        ),
        (WebhookModel::Pulling(pull), _) => webhook_pulling(verification::pull_step(pull, event)),
        (WebhookModel::Charge, Event::Charge(Ok(charge))) => charge_judged(charge),
        (WebhookModel::Capture, Event::Capture(Ok(capture))) => capture_judged(capture),
        (WebhookModel::Dispute, Event::Dispute(Ok(dispute))) => webhook_next(
            disputed_captures(dispute.disputed_transactions@),
        ),
        (WebhookModel::Finding(pending), Event::Row(Ok(Some(row)))) => TurnModel::Perform(
            WebhookModel::Marking(pending),
            ActionModel::MarkReversed { creator: row.creator@, bundle_id: row.bundle_id@ },
        ),
        (WebhookModel::Finding(pending), _) => webhook_next(pending),
        (WebhookModel::Marking(pending), _) => webhook_next(pending),
        _ => webhook_received(),
    }
}

fn fault(error: ApiError) -> (turn: Turn<Webhook, Reply>)
    ensures
        turn@ == webhook_fault(error),
{
    Turn::Done(Reply::Fault(error))
}

fn received() -> (turn: Turn<Webhook, Reply>)
    ensures
        turn@ == webhook_received(),
{
    Turn::Done(Reply::Received { duplicate: false })
}

/// The text of a member of an optional value.
fn text_in(value: Option<&Json>, key: &str) -> (found: Option<String>)
    ensures
        text::text_opt(found) == json::member_text(or_null(json::tree_opt(value)), key@),
{
    match value {
        Some(value) => match value.get_text(key) {
            Some(found) => Some(found.clone()),
            None => None,
        },
        None => None,
    }
}

/// The correlation that a client reference names.
pub fn read_reference(reference: Option<String>) -> (hint: Hint)
    ensures
        hint@ == referenced(text::text_opt(reference)),
{
    match reference {
        Some(reference) => match text::split_at_first(&reference, '_') {
            Some((creator, bundle_id)) => Hint::Payment { creator, bundle_id },
            None => Hint::Nothing,
        },
        None => Hint::Nothing,
    }
}

fn read_stripe_hint(event: &Json, event_type: &str) -> (hint: Hint)
    ensures
        hint@ == stripe_hint(event@, event_type@),
{
    let object: Option<&Json> = match event.get("data") {
        Some(data) => data.get("object"),
        None => None,
    };
    if text::same_text(event_type, "checkout.session.completed") || text::same_text(
        event_type,
        "checkout.session.async_payment_succeeded",
    ) {
        return read_reference(text_in(object, "client_reference_id"));
    }
    if text::same_text(event_type, "charge.refunded") || text::same_text(
        event_type,
        "charge.dispute.created",
    ) {
        return match text_in(object, "id") {
            Some(charge_id) => Hint::Charge { charge_id },
            None => Hint::Nothing,
        };
    }
    Hint::Nothing
}

/// Reads a Stripe event's identity and what it names.
pub fn read_stripe_event(event: &Json) -> (delivery: Option<Delivery>)
    ensures
        delivery_opt(delivery) == stripe_delivery(event@),
{
    match (event.get_text("id"), event.get_text("type")) {
        (Some(event_id), Some(event_type)) => Some(
            Delivery {
                event_id: event_id.clone(),
                event_type: event_type.clone(),
                hint: read_stripe_hint(event, event_type),
            },
        ),
        _ => None,
    }
}

fn read_paypal_reference(resource: Option<&Json>) -> (reference: Option<String>)
    ensures
        text::text_opt(reference) == paypal_reference(or_null(json::tree_opt(resource))),
{
    let own: Option<String> = text_in(resource, "custom_id");
    if own.is_some() {
        return own;
    }
    let units: Option<&Json> = match resource {
        Some(resource) => resource.get("purchase_units"),
        None => None,
    };
    let unit: Option<&Json> = match units {
        Some(Json::List(_)) => units.unwrap().at(0),
        Some(units) => units.get("0"),
        None => None,
    };
    text_in(unit, "custom_id")
}

fn read_paypal_hint(event: &Json, event_type: &str) -> (hint: Hint)
    ensures
        hint@ == paypal_hint(event@, event_type@),
{
    let resource: Option<&Json> = event.get("resource");
    if text::same_text(event_type, "CHECKOUT.ORDER.APPROVED") || text::same_text(
        event_type,
        "CHECKOUT.ORDER.COMPLETED",
    ) || text::same_text(event_type, "PAYMENT.CAPTURE.COMPLETED") || text::same_text(
        event_type,
        "PAYMENT.CAPTURE.PENDING",
    ) {
        return read_reference(read_paypal_reference(resource));
    }
    if text::same_text(event_type, "PAYMENT.CAPTURE.REFUNDED") || text::same_text(
        event_type,
        "PAYMENT.CAPTURE.REVERSED",
    ) || text::same_text(event_type, "PAYMENT.CAPTURE.DENIED") {
        let capture: Option<String> = match resource {
            Some(resource) => http::reversal_capture_id(resource),
            None => None,
        };
        return match capture {
            Some(capture_id) => Hint::Capture { capture_id },
            None => Hint::Nothing,
        };
    }
    if text::same_text(event_type, "CUSTOMER.DISPUTE.CREATED") {
        return match text_in(resource, "dispute_id") {
            Some(dispute_id) => Hint::Dispute { dispute_id },
            None => Hint::Nothing,
        };
    }
    Hint::Nothing
}

/// Reads a PayPal event's identity and what it names.
pub fn read_paypal_event(event: &Json) -> (delivery: Option<Delivery>)
    ensures
        delivery_opt(delivery) == paypal_delivery(event@),
{
    match (event.get_text("id"), event.get_text("event_type")) {
        (Some(event_id), Some(event_type)) => Some(
            Delivery {
                event_id: event_id.clone(),
                event_type: event_type.clone(),
                hint: read_paypal_hint(event, event_type),
            },
        ),
        _ => None,
    }
}

fn identify(delivery: Option<Delivery>) -> (turn: Turn<Webhook, Reply>)
    ensures
        turn@ == webhook_identified(delivery_opt(delivery)),
{
    match delivery {
        Some(delivery) => Turn::Perform(
            Webhook::Recording(delivery.hint),
            Action::RecordWebhookEvent {
                event_id: delivery.event_id,
                event_type: delivery.event_type,
            },
        ),
        None => fault(ApiError::InvalidRequest),
    }
}

/// The headers of a PayPal delivery, if all of them are there.
pub fn read_transmission(headers: &Headers) -> (found: Option<WebhookHeaders>)
    ensures
        match found {
            Some(found) => transmission(headers@) == Some(
                (
                    found.transmission_id@,
                    found.transmission_time@,
                    found.transmission_sig@,
                    found.cert_url@,
                    found.auth_algo@,
                ),
            ),
            None => transmission(headers@) is None,
        },
{
    match (
        headers.text("paypal-transmission-id"),
        headers.text("paypal-transmission-time"),
        headers.text("paypal-transmission-sig"),
        headers.text("paypal-cert-url"),
        headers.text("paypal-auth-algo"),
    ) {
        (
            Some(transmission_id),
            Some(transmission_time),
            Some(transmission_sig),
            Some(cert_url),
            Some(auth_algo),
        ) => Some(
            WebhookHeaders {
                transmission_id,
                transmission_time,
                transmission_sig,
                cert_url,
                auth_algo,
            },
        ),
        _ => None,
    }
}

/// The turn that an attested PayPal delivery leads to, given the event that its
/// body parses into.
pub fn judge_paypal_event(event: &Option<Json>) -> (turn: Turn<Webhook, Reply>)
    ensures
        turn@ == paypal_attested(json::owned_tree_opt(*event)),
{
    match event {
        Some(event) => identify(read_paypal_event(event)),
        None => fault(ApiError::InvalidRequest),
    }
}

fn follow(hint: Hint, now: Timestamp) -> (turn: Turn<Webhook, Reply>)
    ensures
        turn@ == webhook_followed(hint@, now@),
{
    match hint {
        Hint::Payment { creator, bundle_id } => Turn::Perform(
            Webhook::Looking(now),
            Action::Get { creator, bundle_id },
        ),
        Hint::Charge { charge_id } => Turn::Perform(
            Webhook::Charge,
            Action::RetrieveCharge { charge_id },
        ),
        Hint::Capture { capture_id } => Turn::Perform(
            Webhook::Capture,
            Action::RetrieveCapture { capture_id },
        ),
        Hint::Dispute { dispute_id } => Turn::Perform(
            Webhook::Dispute,
            Action::RetrieveDispute { dispute_id },
        ),
        Hint::Nothing => received(),
    }
}

fn pulling(turn: Turn<Pull, PullOutcome>) -> (next: Turn<Webhook, Reply>)
    ensures
        next@ == webhook_pulling(turn@),
{
    match turn {
        Turn::Perform(pull, action) => Turn::Perform(Webhook::Pulling(pull), action),
        Turn::Done(_) => received(),
    }
}

fn none_pending() -> (pending: Vec<String>)
    ensures
        text::texts(pending@) == Seq::<Seq<char>>::empty(),
{
    let pending: Vec<String> = Vec::new();
    assert(text::texts(pending@) =~= Seq::empty());
    pending
}

fn judge_charge(charge: &Charge) -> (turn: Turn<Webhook, Reply>)
    ensures
        turn@ == charge_judged(*charge),
{
    match &charge.payment_intent {
        Some(payment_intent) => {
            if !charge.refunded && !charge.disputed {
                return received();
            }
            Turn::Perform(
                Webhook::Finding(none_pending()),
                Action::FindByPaymentIntent { reference: payment_intent.clone() },
            )
        },
        None => received(),
    }
}

fn mark_paypal_capture_reversed(capture: &Capture) -> (turn: Turn<Webhook, Reply>)
    ensures
        turn@ == capture_judged(*capture),
{
    if !http::is_reversal_capture_status(&capture.status) {
        return received();
    }
    match read_reference(text::copy_text_opt(&capture.custom_id)) {
        Hint::Payment { creator, bundle_id } => Turn::Perform(
            Webhook::Finding(none_pending()),
            Action::Get { creator, bundle_id },
        ),
        _ => Turn::Perform(
            Webhook::Finding(none_pending()),
            Action::FindByPaymentIntent { reference: capture.id.clone() },
        ),
    }
}

fn read_disputed_captures(transactions: &Vec<DisputedTransaction>) -> (captures: Vec<String>)
    ensures
        text::texts(captures@) == disputed_captures(transactions@),
{
    let mut captures: Vec<String> = none_pending();
    let mut i: usize = 0;
    while i < transactions.len()
        invariant
            i <= transactions@.len(),
            text::texts(captures@) == disputed_captures(transactions@.take(i as int)),
        decreases transactions.len() - i,
    {
        proof {
            let longer = transactions@.take(i as int + 1);
            assert(longer.drop_last() =~= transactions@.take(i as int));
            assert(longer.last() == transactions@[i as int]);
        }
        if let Some(id) = &transactions[i].seller_transaction_id {
            let ghost before = captures@;
            captures.push(id.clone());
            assert(text::texts(captures@) =~= text::texts(before).push(id@));
        }
        i = i + 1;
    }
    assert(transactions@.take(i as int) =~= transactions@);
    captures
}

fn look_up_next(pending: Vec<String>) -> (turn: Turn<Webhook, Reply>)
    ensures
        turn@ == webhook_next(text::texts(pending@)),
{
    let mut rest: Vec<String> = pending;
    if rest.len() == 0 {
        return received();
    }
    let reference: String = rest.remove(0);
    assert(text::texts(rest@) =~= text::texts(pending@).skip(1));
    Turn::Perform(
        Webhook::Finding(rest),
        Action::FindByPaymentIntent { reference },
    )
}

impl AppState {
    /// The first turn of a raw Stripe delivery.
    pub fn stripe_webhook(&self, headers: &Headers, raw_body: &[u8], now: Timestamp) -> (turn: Turn<
        Webhook,
        Reply,
    >)
        ensures
            turn@ == stripe_webhook_start(*self, headers@, raw_body@, now@),
    {
        let signature: Option<String> = headers.text("stripe-signature");
        let mut accepted: bool = false;
        if let Some(stripe) = &self.processors.stripe {
            if let (Some(secret), Some(signature)) = (stripe.webhook_secret(), &signature) {
                accepted = StripeProcessor::verify_webhook(
                    secret,
                    signature,
                    raw_body,
                    now.unix(),
                    Span::from_secs(http::WEBHOOK_TOLERANCE_SECONDS),
                ).is_ok();
            }
        }
        let event: Option<Json> = if accepted {
            json::parse_json(raw_body)
        } else {
            None
        };
        self.judge_stripe_delivery(&signature, accepted, &event)
    }

    /// The first turn of a Stripe delivery, given the verdict on its signature
    /// and the event that its body parses into.
    pub fn judge_stripe_delivery(
        &self,
        signature: &Option<String>,
        accepted: bool,
        event: &Option<Json>,
    ) -> (turn: Turn<Webhook, Reply>)
        ensures
            turn@ == stripe_judged(
                *self,
                text::text_opt(*signature),
                accepted,
                json::owned_tree_opt(*event),
            ),
    {
        match &self.processors.stripe {
            Some(stripe) => {
                if stripe.webhook_secret().is_none() {
                    return fault(ApiError::Unavailable);
                }
            },
            None => return fault(ApiError::Unavailable),
        }
        if signature.is_none() || !accepted {
            return fault(ApiError::InvalidSignature);
        }
        match event {
            Some(event) => identify(read_stripe_event(event)),
            None => fault(ApiError::InvalidRequest),
        }
    }

    /// The first turn of a raw PayPal delivery.
    pub fn paypal_webhook(&self, headers: &Headers, raw_body: &[u8]) -> (turn: Turn<Webhook, Reply>)
        ensures
            turn@ == paypal_webhook_start(*self, headers@, raw_body@),
    {
        let expected: bool = match &self.processors.paypal {
            Some(paypal) => paypal.webhook_id().is_some(),
            None => false,
        };
        let raw_event: Option<String> = if expected && read_transmission(headers).is_some() {
            json::raw_event(raw_body)
        } else {
            None
        };
        self.judge_paypal_delivery(headers, raw_body, raw_event)
    }

    /// The first turn of a PayPal delivery, given the JSON text of its body.
    pub fn judge_paypal_delivery(
        &self,
        headers: &Headers,
        raw_body: &[u8],
        raw_event: Option<String>,
    ) -> (turn: Turn<Webhook, Reply>)
        ensures
            turn@ == paypal_judged(*self, headers@, raw_body@, text::text_opt(raw_event)),
    {
        let webhook_id: &String = match &self.processors.paypal {
            Some(paypal) => match paypal.webhook_id() {
                Some(webhook_id) => webhook_id,
                None => return fault(ApiError::Unavailable),
            },
            None => return fault(ApiError::Unavailable),
        };
        let transmission: WebhookHeaders = match read_transmission(headers) {
            Some(transmission) => transmission,
            None => return fault(ApiError::InvalidSignature),
        };
        let raw_event: String = match raw_event {
            Some(raw_event) => raw_event,
            None => return fault(ApiError::Unavailable),
        };
        let question: Postback = paypal::postback(webhook_id, transmission, raw_event);
        let mut body: Vec<u8> = Vec::new();
        body.extend_from_slice(raw_body);
        assert(body@ =~= raw_body@);
        Turn::Perform(Webhook::Verifying(body), Action::VerifyWebhook(question))
    }

    /// The next turn of a webhook. An answer that does not fit counts as a
    /// failed one.
    pub fn step_webhook(&self, webhook: Webhook, event: &Event, now: Timestamp) -> (turn: Turn<
        Webhook,
        Reply,
    >)
        ensures
            turn@ == webhook_step(*self, webhook@, *event, now@),
    {
        match (webhook, event) {
            (Webhook::Verifying(raw_body), Event::Attested(Ok(attested))) => {
                if *attested {
                    judge_paypal_event(&json::parse_json(&raw_body))
                } else {
                    fault(ApiError::InvalidSignature)
                }
            },
            (Webhook::Verifying(_), _) => fault(ApiError::Unavailable),
            (Webhook::Recording(hint), Event::Recorded(Ok(is_new))) => {
                if *is_new {
                    follow(hint, now)
                } else {
                    Turn::Done(Reply::Received { duplicate: true })
                }
            },
            (Webhook::Recording(_), _) => fault(ApiError::Unavailable),
            (Webhook::Looking(looked_at), Event::Row(Ok(Some(row)))) => pulling(
                verification::pull_and_apply(&self.processors, row.copy(), looked_at),
            ),
            (Webhook::Pulling(pull), event) => pulling(pull.step(event)),
            (Webhook::Charge, Event::Charge(Ok(charge))) => judge_charge(charge),
            (Webhook::Capture, Event::Capture(Ok(capture))) => mark_paypal_capture_reversed(
                capture,
            ),
            (Webhook::Dispute, Event::Dispute(Ok(dispute))) => look_up_next(
                read_disputed_captures(&dispute.disputed_transactions),
            ),
            (Webhook::Finding(pending), Event::Row(Ok(Some(row)))) => Turn::Perform(
                Webhook::Marking(pending),
                Action::MarkReversed {
                    creator: row.creator.clone(),
                    bundle_id: row.bundle_id.clone(),
                },
            ),
            (Webhook::Finding(pending), _) => look_up_next(pending),
            (Webhook::Marking(pending), _) => look_up_next(pending),
            _ => received(),
        }
    }
}

} // verus!
