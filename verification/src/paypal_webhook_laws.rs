//! What PayPal's webhooks are for: the delivery is posted back for attestation,
//! and what an attested event names is read from the API. The laws speak of the
//! members of the events and the fields of the answers.

use crate::api_call::PostbackModel;
use crate::auth;
use crate::effects::ActionModel;
use crate::effects::Event;
use crate::effects::ReplyModel;
use crate::effects::TurnModel;
use crate::error::ApiError;
use crate::http;
use crate::http::AppState;
use crate::json;
use crate::json::JsonModel;
use crate::paypal::Capture;
use crate::paypal::Dispute;
use crate::paypal::DisputedTransaction;
use crate::store::Correlation;
use crate::text;
use crate::webhook_laws;
use crate::webhooks;
use crate::webhooks::WebhookModel;
use vstd::prelude::*;

verus! {

/// A PayPal delivery is posted back as it came, with the configured webhook id,
/// before anything else is done about it. Without one of the five transmission
/// headers it is refused.
pub proof fn paypal_delivery_is_posted_back(
    app: AppState,
    headers: Seq<(Seq<char>, Seq<u8>)>,
    raw_body: Seq<u8>,
    webhook_id: Seq<char>,
)
    requires
        app.processors.paypal matches Some(paypal) && paypal.webhook() == Some(webhook_id),
    ensures
        ({
            let turn = webhooks::paypal_webhook_start(app, headers, raw_body);
            match (
                auth::header_text(headers, "paypal-transmission-id"@),
                auth::header_text(headers, "paypal-transmission-time"@),
                auth::header_text(headers, "paypal-transmission-sig"@),
                auth::header_text(headers, "paypal-cert-url"@),
                auth::header_text(headers, "paypal-auth-algo"@),
            ) {
                (
                    Some(transmission_id),
                    Some(transmission_time),
                    Some(transmission_sig),
                    Some(cert_url),
                    Some(auth_algo),
                ) => match json::raw_document(raw_body) {
                    Some(webhook_event) => turn == TurnModel::<WebhookModel, ReplyModel>::Perform(
                        WebhookModel::Verifying(raw_body),
                        ActionModel::VerifyWebhook(
                            PostbackModel {
                                auth_algo,
                                cert_url,
                                transmission_id,
                                transmission_sig,
                                transmission_time,
                                webhook_id,
                                webhook_event,
                            },
                        ),
                    ),
                    None => turn == webhook_laws::refused(ApiError::Unavailable),
                },
                _ => turn == webhook_laws::refused(ApiError::InvalidSignature),
            }
        }),
{
}

/// A delivery that PayPal does not attest is refused, and one on which PayPal
/// could not be asked is not taken either. An attested body must be an event
/// with an id and a type.
pub proof fn unattested_delivery_is_refused(
    app: AppState,
    raw_body: Seq<u8>,
    event: Event,
    now: int,
)
    ensures
        ({
            let turn = webhooks::webhook_step(app, WebhookModel::Verifying(raw_body), event, now);
            match event {
                Event::Attested(Ok(true)) => match json::parsed_json(raw_body) {
                    Some(document) => webhook_laws::is_silent(document, "id"@)
                        || webhook_laws::is_silent(document, "event_type"@) ==> turn
                        == webhook_laws::refused(ApiError::InvalidRequest),
                    None => turn == webhook_laws::refused(ApiError::InvalidRequest),
                },
                Event::Attested(Ok(false)) => turn == webhook_laws::refused(
                    ApiError::InvalidSignature,
                ),
                _ => turn == webhook_laws::refused(ApiError::Unavailable),
            }
        }),
{
}

/// The turn that an attestation leads to.
pub open spec fn attested(app: AppState, raw_body: Seq<u8>, now: int) -> TurnModel<
    WebhookModel,
    ReplyModel,
> {
    webhooks::webhook_step(
        app,
        WebhookModel::Verifying(raw_body),
        Event::Attested(Ok(true)),
        now,
    )
}

/// Whether a body is an event of that id and type.
pub open spec fn is_event(
    raw_body: Seq<u8>,
    event: JsonModel,
    event_id: Seq<char>,
    event_type: Seq<char>,
) -> bool {
    &&& json::parsed_json(raw_body) == Some(event)
    &&& webhook_laws::says(event, "id"@, event_id)
    &&& webhook_laws::says(event, "event_type"@, event_type)
}

/// Whether a PayPal event says that an order moves on.
pub open spec fn is_order_event(event_type: Seq<char>) -> bool {
    ||| event_type == "CHECKOUT.ORDER.APPROVED"@
    ||| event_type == "CHECKOUT.ORDER.COMPLETED"@
    ||| event_type == "PAYMENT.CAPTURE.COMPLETED"@
    ||| event_type == "PAYMENT.CAPTURE.PENDING"@
}

/// Whether a PayPal event says that a capture was reversed.
pub open spec fn is_reversal_event(event_type: Seq<char>) -> bool {
    ||| event_type == "PAYMENT.CAPTURE.REFUNDED"@
    ||| event_type == "PAYMENT.CAPTURE.REVERSED"@
    ||| event_type == "PAYMENT.CAPTURE.DENIED"@
}

/// Whether a resource refers to a text by its own `custom_id`, or, without one
/// of its own, by that of its first purchase unit, which may also be named `0`.
pub open spec fn refers_to(resource: JsonModel, reference: Seq<char>) -> bool {
    ||| webhook_laws::says(resource, "custom_id"@, reference)
    ||| {
        &&& webhook_laws::is_silent(resource, "custom_id"@)
        &&& json::member(resource, "purchase_units"@) matches Some(JsonModel::List(units))
        &&& units.len() > 0
        &&& webhook_laws::says(units[0], "custom_id"@, reference)
    }
    ||| {
        &&& webhook_laws::is_silent(resource, "custom_id"@)
        &&& json::member(resource, "purchase_units"@) matches Some(units)
        &&& json::member(units, "0"@) matches Some(unit)
        &&& webhook_laws::says(unit, "custom_id"@, reference)
    }
}

proof fn lemma_paypal_types()
    ensures
        forall|event_type: Seq<char>| #[trigger]
            is_reversal_event(event_type) ==> !is_order_event(event_type) && event_type
                != "CUSTOMER.DISPUTE.CREATED"@,
        !is_order_event("CUSTOMER.DISPUTE.CREATED"@),
        !is_reversal_event("CUSTOMER.DISPUTE.CREATED"@),
{
    reveal_strlit("CHECKOUT.ORDER.APPROVED");
    reveal_strlit("CHECKOUT.ORDER.COMPLETED");
    reveal_strlit("PAYMENT.CAPTURE.COMPLETED");
    reveal_strlit("PAYMENT.CAPTURE.PENDING");
    reveal_strlit("PAYMENT.CAPTURE.REFUNDED");
    reveal_strlit("PAYMENT.CAPTURE.REVERSED");
    reveal_strlit("PAYMENT.CAPTURE.DENIED");
    reveal_strlit("CUSTOMER.DISPUTE.CREATED");
    assert("CHECKOUT.ORDER.APPROVED"@[1] == 'H');
    assert("CHECKOUT.ORDER.COMPLETED"@[1] == 'H');
    assert("PAYMENT.CAPTURE.COMPLETED"@[16] == 'C');
    assert("PAYMENT.CAPTURE.PENDING"@[16] == 'P');
    assert("PAYMENT.CAPTURE.REFUNDED"@[16] == 'R');
    assert("PAYMENT.CAPTURE.REVERSED"@[16] == 'R');
    assert("PAYMENT.CAPTURE.DENIED"@[16] == 'D');
    assert("PAYMENT.CAPTURE.REFUNDED"@[1] == 'A');
    assert("PAYMENT.CAPTURE.REVERSED"@[1] == 'A');
    assert("PAYMENT.CAPTURE.DENIED"@[1] == 'A');
    assert("PAYMENT.CAPTURE.COMPLETED"@[1] == 'A');
    assert("PAYMENT.CAPTURE.PENDING"@[1] == 'A');
    assert("CUSTOMER.DISPUTE.CREATED"@[1] == 'U');
}

/// An attested event on an order or a capture is recorded; when it is new, the
/// correlation that its resource refers to is read; and when that has a session
/// on a configured processor, the session is pulled.
pub proof fn order_event_pulls_the_order(
    app: AppState,
    raw_body: Seq<u8>,
    now: int,
    event: JsonModel,
    resource: JsonModel,
    event_id: Seq<char>,
    event_type: Seq<char>,
    creator: Seq<char>,
    bundle_id: Seq<char>,
    recorded_at: int,
    row: Correlation,
    later: int,
)
    requires
        is_event(raw_body, event, event_id, event_type),
        is_order_event(event_type),
        json::member(event, "resource"@) == Some(resource),
        refers_to(resource, creator.push('_') + bundle_id),
        !creator.contains('_'),
    ensures
        ({
            let turn = attested(app, raw_body, now);
            let looking = webhook_laws::after_record(app, turn, recorded_at);
            &&& webhook_laws::records_then(
                app,
                turn,
                event_id,
                event_type,
                recorded_at,
                ActionModel::Get { creator, bundle_id },
            )
            &&& webhook_laws::pulls_its_session(
                app,
                row,
                recorded_at,
                webhooks::webhook_step(app, looking, Event::Row(Ok(Some(row))), later),
            )
        }),
{
    webhook_laws::lemma_kinds();
    text::lemma_split_once_unique(creator, '_', bundle_id);
}

/// Whether a link is an `up` link to a capture.
pub open spec fn links_to(link: JsonModel, front: Seq<char>, capture_id: Seq<char>) -> bool {
    &&& webhook_laws::says(link, "rel"@, "up"@)
    &&& webhook_laws::says(link, "href"@, front + "/captures/"@ + capture_id)
    &&& capture_id.len() > 0
    &&& !capture_id.contains('/')
}

/// Whether a link is no `up` link.
pub open spec fn links_elsewhere(link: JsonModel) -> bool {
    json::member(link, "rel"@) != Some(JsonModel::Text("up"@))
}

proof fn lemma_capture_path(front: Seq<char>, capture_id: Seq<char>)
    requires
        !capture_id.contains('/'),
    ensures
        text::after_last(front + "/captures/"@ + capture_id, "/captures/"@) == Some(capture_id),
{
    reveal_strlit("/captures/");
    let needle = "/captures/"@;
    let whole = front + needle + capture_id;
    let at = front.len() as int;
    assert(whole.subrange(at, at + needle.len()) =~= needle);
    assert forall|j: int| j > at implies !text::occurs_at(whole, needle, j) by {
        if text::occurs_at(whole, needle, j) {
            let found = whole.subrange(j, j + needle.len());
            assert(found[0] == '/' && found[9] == '/');
            assert(whole[j + 9] == '/');
            assert(capture_id[j + 9 - at - 10] == '/');
        }
    }
    text::lemma_after_last(whole, needle, at);
    assert(whole.skip(at + needle.len()) =~= capture_id);
}

proof fn lemma_first_link(links: Seq<JsonModel>, at: int, front: Seq<char>, capture_id: Seq<char>)
    requires
        0 <= at < links.len(),
        links_to(links[at], front, capture_id),
        forall|j: int| 0 <= j < at ==> links_elsewhere(#[trigger] links[j]),
    ensures
        http::first_linked_capture(links) == Some(capture_id),
    decreases at,
{
    lemma_capture_path(front, capture_id);
    if at > 0 {
        let rest = links.skip(1);
        assert(links_elsewhere(links[0]));
        assert forall|j: int| 0 <= j < at - 1 implies links_elsewhere(#[trigger] rest[j]) by {
            assert(rest[j] == links[j + 1]);
        }
        lemma_first_link(rest, at - 1, front, capture_id);
    }
}

proof fn lemma_no_link(links: Seq<JsonModel>)
    requires
        forall|j: int| 0 <= j < links.len() ==> links_elsewhere(#[trigger] links[j]),
    ensures
        http::first_linked_capture(links) is None,
    decreases links.len(),
{
    if links.len() > 0 {
        let rest = links.skip(1);
        assert(links_elsewhere(links[0]));
        assert forall|j: int| 0 <= j < rest.len() implies links_elsewhere(#[trigger] rest[j]) by {
            assert(rest[j] == links[j + 1]);
        }
        lemma_no_link(rest);
    }
}

/// Whether a reversal event's resource stands for a capture: by the first of
/// its links that goes up, or, where none does, by its own id.
pub open spec fn reverses(
    resource: JsonModel,
    links: Seq<JsonModel>,
    at: int,
    front: Seq<char>,
    capture_id: Seq<char>,
) -> bool {
    &&& json::member(resource, "links"@) == Some(JsonModel::List(links))
    &&& {
        ||| {
            &&& 0 <= at < links.len()
            &&& links_to(links[at], front, capture_id)
            &&& forall|j: int| 0 <= j < at ==> links_elsewhere(#[trigger] links[j])
        }
        ||| {
            &&& forall|j: int| 0 <= j < links.len() ==> links_elsewhere(#[trigger] links[j])
            &&& webhook_laws::says(resource, "id"@, capture_id)
        }
    }
}

/// Whether a capture was really reversed.
pub open spec fn was_reversed(capture: Capture) -> bool {
    &&& capture.status matches Some(status)
    &&& (status@ == "REFUNDED"@ || status@ == "PARTIALLY_REFUNDED"@ || status@ == "REVERSED"@
        || status@ == "DECLINED"@ || status@ == "FAILED"@)
}

/// An attested event that a capture was reversed is recorded; when it is new,
/// the capture is pulled.
pub proof fn reversal_event_pulls_the_capture(
    app: AppState,
    raw_body: Seq<u8>,
    now: int,
    event: JsonModel,
    resource: JsonModel,
    event_id: Seq<char>,
    event_type: Seq<char>,
    links: Seq<JsonModel>,
    at: int,
    front: Seq<char>,
    capture_id: Seq<char>,
    recorded_at: int,
)
    requires
        is_event(raw_body, event, event_id, event_type),
        is_reversal_event(event_type),
        json::member(event, "resource"@) == Some(resource),
        reverses(resource, links, at, front, capture_id),
    ensures
        ({
            let turn = attested(app, raw_body, now);
            &&& webhook_laws::records_then(
                app,
                turn,
                event_id,
                event_type,
                recorded_at,
                ActionModel::RetrieveCapture { capture_id },
            )
            &&& webhook_laws::after_record(app, turn, recorded_at) == WebhookModel::Capture
        }),
{
    lemma_paypal_types();
    if 0 <= at < links.len() && links_to(links[at], front, capture_id) && (forall|j: int|
        0 <= j < at ==> links_elsewhere(#[trigger] links[j])) {
        lemma_first_link(links, at, front, capture_id);
    } else {
        lemma_no_link(links);
    }
}

/// A resource without links stands for the capture of its own id.
pub proof fn bare_reversal_event_pulls_its_own_capture(
    app: AppState,
    raw_body: Seq<u8>,
    now: int,
    event: JsonModel,
    resource: JsonModel,
    event_id: Seq<char>,
    event_type: Seq<char>,
    capture_id: Seq<char>,
    recorded_at: int,
)
    requires
        is_event(raw_body, event, event_id, event_type),
        is_reversal_event(event_type),
        json::member(event, "resource"@) == Some(resource),
        json::member(resource, "links"@) is None,
        webhook_laws::says(resource, "id"@, capture_id),
    ensures
        webhook_laws::records_then(
            app,
            attested(app, raw_body, now),
            event_id,
            event_type,
            recorded_at,
            ActionModel::RetrieveCapture { capture_id },
        ),
{
    lemma_paypal_types();
}

/// A pulled capture that really was reversed leads to the correlation of its
/// reference, or, without one, to that of its own id, which is marked reversed.
/// Any other capture leads nowhere.
pub proof fn reversed_capture_reverses_the_payment(
    app: AppState,
    capture: Capture,
    creator: Seq<char>,
    bundle_id: Seq<char>,
    row: Correlation,
    marked: Event,
    now: int,
)
    requires
        !creator.contains('_'),
    ensures
        ({
            let answered = webhooks::webhook_step(
                app,
                WebhookModel::Capture,
                Event::Capture(Ok(capture)),
                now,
            );
            if was_reversed(capture) {
                &&& answered matches TurnModel::Perform(finding, find)
                &&& match capture.custom_id {
                    Some(custom_id) => {
                        &&& custom_id@ == creator.push('_') + bundle_id ==> find
                            == (ActionModel::Get { creator, bundle_id })
                        &&& !custom_id@.contains('_') ==> find
                            == (ActionModel::FindByPaymentIntent { reference: capture.id@ })
                    },
                    None => find == (ActionModel::FindByPaymentIntent { reference: capture.id@ }),
                }
                &&& webhooks::webhook_step(
                    app,
                    finding,
                    Event::Row(Ok(Some(row))),
                    now,
                ) matches TurnModel::Perform(marking, mark)
                &&& mark == (ActionModel::MarkReversed {
                    creator: row.creator@,
                    bundle_id: row.bundle_id@,
                })
                &&& webhooks::webhook_step(app, marking, marked, now) == webhook_laws::taken()
                &&& webhooks::webhook_step(app, finding, Event::Row(Ok(None)), now)
                    == webhook_laws::taken()
            } else {
                answered == webhook_laws::taken()
            }
        }),
        forall|other: Event|
            !(other matches Event::Capture(Ok(_))) ==> #[trigger] webhooks::webhook_step(
                app,
                WebhookModel::Capture,
                other,
                now,
            ) == webhook_laws::taken(),
{
    text::lemma_split_once_unique(creator, '_', bundle_id);
    match capture.custom_id {
        Some(custom_id) => {
            text::lemma_split_once(custom_id@, '_');
        },
        None => {},
    }
}

/// An attested event that a dispute was opened is recorded; when it is new, the
/// dispute is pulled.
pub proof fn dispute_event_pulls_the_dispute(
    app: AppState,
    raw_body: Seq<u8>,
    now: int,
    event: JsonModel,
    resource: JsonModel,
    event_id: Seq<char>,
    dispute_id: Seq<char>,
    recorded_at: int,
)
    requires
        is_event(raw_body, event, event_id, "CUSTOMER.DISPUTE.CREATED"@),
        json::member(event, "resource"@) == Some(resource),
        webhook_laws::says(resource, "dispute_id"@, dispute_id),
    ensures
        ({
            let turn = attested(app, raw_body, now);
            &&& webhook_laws::records_then(
                app,
                turn,
                event_id,
                "CUSTOMER.DISPUTE.CREATED"@,
                recorded_at,
                ActionModel::RetrieveDispute { dispute_id },
            )
            &&& webhook_laws::after_record(app, turn, recorded_at) == WebhookModel::Dispute
        }),
{
    lemma_paypal_types();
}

/// The ids of the transactions of a dispute that have one, before a position.
pub open spec fn named_before(transactions: Seq<DisputedTransaction>, end: int) -> nat
    decreases end,
{
    if end <= 0 {
        0
    } else if transactions[end - 1].seller_transaction_id is Some {
        named_before(transactions, end - 1) + 1
    } else {
        named_before(transactions, end - 1)
    }
}

proof fn lemma_disputed(transactions: Seq<DisputedTransaction>, at: int)
    requires
        0 <= at < transactions.len(),
    ensures
        webhooks::disputed_captures(transactions).len() == named_before(
            transactions,
            transactions.len() as int,
        ),
        transactions[at].seller_transaction_id matches Some(id) ==> {
            &&& named_before(transactions, at) < webhooks::disputed_captures(transactions).len()
            &&& webhooks::disputed_captures(transactions)[named_before(transactions, at) as int]
                == id@
        },
    decreases transactions.len(),
{
    let front = transactions.drop_last();
    lemma_named_before(front, transactions, front.len() as int);
    lemma_named_before(front, transactions, at);
    if front.len() > 0 {
        lemma_disputed(
            front,
            if at < front.len() {
                at
            } else {
                0
            },
        );
    } else {
        assert(webhooks::disputed_captures(front) =~= Seq::empty());
    }
}

proof fn lemma_named_before(
    front: Seq<DisputedTransaction>,
    whole: Seq<DisputedTransaction>,
    end: int,
)
    requires
        end <= front.len() <= whole.len(),
        forall|i: int| 0 <= i < front.len() ==> front[i] == whole[i],
    ensures
        named_before(front, end) == named_before(whole, end),
    decreases end,
{
    if end > 0 {
        lemma_named_before(front, whole, end - 1);
    }
}

/// Every transaction of a pulled dispute that has an id is looked up by it, each
/// once and in order, whatever comes of the others.
pub proof fn every_disputed_transaction_is_looked_up(
    app: AppState,
    dispute: Dispute,
    at: int,
    now: int,
)
    ensures
        ({
            let transactions = dispute.disputed_transactions@;
            let turn = webhooks::webhook_step(
                app,
                WebhookModel::Dispute,
                Event::Dispute(Ok(dispute)),
                now,
            );
            &&& named_before(transactions, transactions.len() as int) == 0 ==> turn
                == webhook_laws::taken()
            &&& (0 <= at < transactions.len() ==> match transactions[at].seller_transaction_id {
                Some(id) => {
                    let before = named_before(transactions, at);
                    &&& turn matches TurnModel::Perform(WebhookModel::Finding(pending), action)
                    &&& pending.len() + 1 == named_before(transactions, transactions.len() as int)
                    &&& if before == 0 {
                        action == (ActionModel::FindByPaymentIntent { reference: id@ })
                    } else {
                        pending[before - 1] == id@
                    }
                },
                None => true,
            })
        }),
{
    let transactions = dispute.disputed_transactions@;
    if transactions.len() > 0 {
        lemma_disputed(transactions, 0);
    }
    if 0 <= at < transactions.len() {
        lemma_disputed(transactions, at);
    }
}

/// While lookups are left, the next one follows whatever came of this one: the
/// row that is found is marked reversed first.
pub proof fn lookups_follow_one_another(
    app: AppState,
    pending: Seq<Seq<char>>,
    row: Correlation,
    event: Event,
    now: int,
)
    ensures
        webhooks::webhook_step(
            app,
            WebhookModel::Finding(pending),
            Event::Row(Ok(Some(row))),
            now,
        ) == TurnModel::<WebhookModel, ReplyModel>::Perform(
            WebhookModel::Marking(pending),
            ActionModel::MarkReversed { creator: row.creator@, bundle_id: row.bundle_id@ },
        ),
        !(event matches Event::Row(Ok(Some(_)))) ==> goes_on(
            pending,
            webhooks::webhook_step(app, WebhookModel::Finding(pending), event, now),
        ),
        goes_on(pending, webhooks::webhook_step(app, WebhookModel::Marking(pending), event, now)),
{
}

/// Whether a turn looks up the first of the pending captures and keeps the
/// others, or ends where none is left.
pub open spec fn goes_on(
    pending: Seq<Seq<char>>,
    turn: TurnModel<WebhookModel, ReplyModel>,
) -> bool {
    if pending.len() == 0 {
        turn == webhook_laws::taken()
    } else {
        &&& turn matches TurnModel::Perform(WebhookModel::Finding(rest), action)
        &&& action == (ActionModel::FindByPaymentIntent { reference: pending[0] })
        &&& rest.len() == pending.len() - 1
        &&& forall|i: int| 0 <= i < rest.len() ==> #[trigger] rest[i] == pending[i + 1]
    }
}

/// A PayPal event of any other type, or one that names nothing, is recorded and
/// nothing more.
pub proof fn other_paypal_events_lead_nowhere(
    app: AppState,
    raw_body: Seq<u8>,
    now: int,
    event: JsonModel,
    event_id: Seq<char>,
    event_type: Seq<char>,
    recorded_at: int,
)
    requires
        is_event(raw_body, event, event_id, event_type),
        json::member(event, "resource"@) is None || (!is_order_event(event_type)
            && !is_reversal_event(event_type) && event_type != "CUSTOMER.DISPUTE.CREATED"@),
    ensures
        webhook_laws::records_only(
            app,
            attested(app, raw_body, now),
            event_id,
            event_type,
            recorded_at,
        ),
{
    lemma_paypal_types();
}

} // verus!
