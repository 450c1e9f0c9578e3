//! What the processors' webhooks are for: what each kind of event leads the
//! gateway to read, and what follows from what is read. The laws speak of the
//! members of the events and the fields of the answers.

use crate::auth;
use crate::clock;
use crate::crypto;
use crate::decimal;
use crate::effects::ActionModel;
use crate::effects::Event;
use crate::effects::ReplyModel;
use crate::effects::TurnModel;
use crate::error::ApiError;
use crate::http;
use crate::http::AppState;
use crate::json;
use crate::json::JsonModel;
use crate::store::Correlation;
use crate::stripe;
use crate::stripe::Charge;
use crate::stripe::WebhookError;
use crate::text;
use crate::text_laws;
use crate::verification;
use crate::verification::PullModel;
use crate::verification::PullStage;
use crate::webhooks;
use crate::webhooks::WebhookModel;
use vstd::prelude::*;
use vstd::utf8::*;

verus! {

/// A member is the first one of its name.
pub proof fn members_are_found_by_name(
    members: Seq<(Seq<char>, JsonModel)>,
    key: Seq<char>,
    at: int,
)
    ensures
        0 <= at < members.len() && members[at].0 == key && (forall|j: int|
            0 <= j < at ==> (#[trigger] members[j]).0 != key) ==> json::member(
            JsonModel::Object(members),
            key,
        ) == Some(members[at].1),
        (forall|j: int| 0 <= j < members.len() ==> (#[trigger] members[j]).0 != key)
            ==> json::member(JsonModel::Object(members), key) is None,
    decreases members.len(),
{
    if members.len() > 0 {
        let rest = members.skip(1);
        members_are_found_by_name(rest, key, at - 1);
        if 0 <= at < members.len() && members[at].0 == key && (forall|j: int|
            0 <= j < at ==> (#[trigger] members[j]).0 != key) && at > 0 {
            assert(members[0].0 != key);
            assert(rest[at - 1] == members[at]);
            assert forall|j: int| 0 <= j < at - 1 implies (#[trigger] rest[j]).0 != key by {
                assert(rest[j] == members[j + 1]);
            }
        }
        if forall|j: int| 0 <= j < members.len() ==> (#[trigger] members[j]).0 != key {
            assert(members[0].0 != key);
            assert forall|j: int| 0 <= j < rest.len() implies (#[trigger] rest[j]).0 != key by {
                assert(rest[j] == members[j + 1]);
            }
        }
    }
}

/// Whether a value is an object with that text as a member.
pub open spec fn says(value: JsonModel, key: Seq<char>, said: Seq<char>) -> bool {
    json::member(value, key) == Some(JsonModel::Text(said))
}

/// Whether a value is an object without a text as that member.
pub open spec fn is_silent(value: JsonModel, key: Seq<char>) -> bool {
    !(json::member(value, key) matches Some(JsonModel::Text(_)))
}

/// Whether a Stripe delivery is signed with the configured secret within three
/// hundred seconds of the current time, and holds that event.
pub open spec fn stripe_delivers(
    app: AppState,
    headers: Seq<(Seq<char>, Seq<u8>)>,
    raw_body: Seq<u8>,
    now: int,
    event: JsonModel,
) -> bool {
    &&& app.processors.stripe matches Some(stripe)
    &&& stripe.webhook() matches Some(secret)
    &&& auth::header_text(headers, "stripe-signature"@) matches Some(signature)
    &&& stripe::webhook_verdict(
        secret,
        signature,
        raw_body,
        clock::unix_seconds(now),
        300_000_000_000,
    ) is Ok
    &&& json::parsed_json(raw_body) == Some(event)
}

/// Whether a turn records an event by its id, and, once that was new, goes on
/// with an action.
pub open spec fn records_then(
    app: AppState,
    turn: TurnModel<WebhookModel, ReplyModel>,
    event_id: Seq<char>,
    event_type: Seq<char>,
    now: int,
    action: ActionModel,
) -> bool {
    &&& turn matches TurnModel::Perform(recording, record)
    &&& record == (ActionModel::RecordWebhookEvent { event_id, event_type })
    &&& webhooks::webhook_step(
        app,
        recording,
        Event::Recorded(Ok(true)),
        now,
    ) matches TurnModel::Perform(_, next)
    &&& next == action
}

/// The flow that waits for the action after the record.
pub open spec fn after_record(
    app: AppState,
    turn: TurnModel<WebhookModel, ReplyModel>,
    now: int,
) -> WebhookModel {
    webhooks::webhook_step(app, turn->Perform_0, Event::Recorded(Ok(true)), now)->Perform_0
}

/// Whether a turn records an event by its id, and nothing more follows.
pub open spec fn records_only(
    app: AppState,
    turn: TurnModel<WebhookModel, ReplyModel>,
    event_id: Seq<char>,
    event_type: Seq<char>,
    now: int,
) -> bool {
    &&& turn matches TurnModel::Perform(recording, record)
    &&& record == (ActionModel::RecordWebhookEvent { event_id, event_type })
    &&& webhooks::webhook_step(app, recording, Event::Recorded(Ok(true)), now) == taken()
}

/// The answer to a delivery that was taken.
pub open spec fn taken() -> TurnModel<WebhookModel, ReplyModel> {
    TurnModel::Done(ReplyModel::Received { duplicate: false })
}

/// The answer to a delivery that was refused.
pub open spec fn refused(error: ApiError) -> TurnModel<WebhookModel, ReplyModel> {
    TurnModel::Done(ReplyModel::Fault(error))
}

/// Whether a turn on a row pulls its session from the processor that it is
/// bound to, where that is configured. A session without a processor is one of
/// Stripe.
pub open spec fn pulls_its_session(
    app: AppState,
    row: Correlation,
    looked_at: int,
    turn: TurnModel<WebhookModel, ReplyModel>,
) -> bool {
    match (row.processor, row.session_id) {
        (_, None) => turn == taken(),
        (None, Some(session_id)) => if app.processors.stripe is Some {
            reads(turn, row, looked_at, PullStage::Session, ActionModel::RetrieveSession {
                session_id: session_id@,
            })
        } else {
            turn == taken()
        },
        (Some(processor), Some(session_id)) => {
            &&& processor@ == "stripe"@ && app.processors.stripe is Some ==> reads(
                turn,
                row,
                looked_at,
                PullStage::Session,
                ActionModel::RetrieveSession { session_id: session_id@ },
            )
            &&& processor@ == "paypal"@ && app.processors.paypal is Some ==> reads(
                turn,
                row,
                looked_at,
                PullStage::Order,
                ActionModel::RetrieveOrder { order_id: session_id@ },
            )
            &&& !(processor@ == "stripe"@ && app.processors.stripe is Some) && !(processor@
                == "paypal"@ && app.processors.paypal is Some) ==> turn == taken()
        },
    }
}

/// Whether a turn begins a pull with an action.
pub open spec fn reads(
    turn: TurnModel<WebhookModel, ReplyModel>,
    row: Correlation,
    looked_at: int,
    stage: PullStage,
    action: ActionModel,
) -> bool {
    turn == TurnModel::<WebhookModel, ReplyModel>::Perform(
        WebhookModel::Pulling(PullModel { row: row@, now: looked_at, stage }),
        action,
    )
}

/// The processors are spelled differently.
pub proof fn lemma_kinds()
    ensures
        "stripe"@ != "paypal"@,
{
    reveal_strlit("stripe");
    reveal_strlit("paypal");
    assert("stripe"@[0] == 's' && "paypal"@[0] == 'p');
}

/// Whether a Stripe event says that a checkout was paid.
pub open spec fn is_checkout_event(event_type: Seq<char>) -> bool {
    event_type == "checkout.session.completed"@ || event_type
        == "checkout.session.async_payment_succeeded"@
}

/// Whether a Stripe event says that a charge was reversed.
pub open spec fn is_charge_event(event_type: Seq<char>) -> bool {
    event_type == "charge.refunded"@ || event_type == "charge.dispute.created"@
}

proof fn lemma_stripe_types()
    ensures
        "checkout.session.completed"@ != "charge.refunded"@,
        "checkout.session.completed"@ != "charge.dispute.created"@,
        "checkout.session.async_payment_succeeded"@ != "charge.refunded"@,
        "checkout.session.async_payment_succeeded"@ != "charge.dispute.created"@,
{
    reveal_strlit("checkout.session.completed");
    reveal_strlit("checkout.session.async_payment_succeeded");
    reveal_strlit("charge.refunded");
    reveal_strlit("charge.dispute.created");
    assert("checkout.session.completed"@.len() == 26);
    assert("checkout.session.async_payment_succeeded"@.len() == 40);
    assert("charge.refunded"@.len() == 15);
    assert("charge.dispute.created"@.len() == 22);
}

/// A signed Stripe event that a checkout was paid is recorded; when it is new,
/// the correlation that its client reference names is read; and when that has a
/// session on a configured processor, the session is pulled.
pub proof fn paid_checkout_event_pulls_the_session(
    app: AppState,
    headers: Seq<(Seq<char>, Seq<u8>)>,
    raw_body: Seq<u8>,
    now: int,
    event: JsonModel,
    data: JsonModel,
    object: JsonModel,
    event_id: Seq<char>,
    event_type: Seq<char>,
    creator: Seq<char>,
    bundle_id: Seq<char>,
    recorded_at: int,
    row: Correlation,
    later: int,
)
    requires
        stripe_delivers(app, headers, raw_body, now, event),
        says(event, "id"@, event_id),
        says(event, "type"@, event_type),
        is_checkout_event(event_type),
        json::member(event, "data"@) == Some(data),
        json::member(data, "object"@) == Some(object),
        says(object, "client_reference_id"@, creator.push('_') + bundle_id),
        !creator.contains('_'),
    ensures
        ({
            let turn = webhooks::stripe_webhook_start(app, headers, raw_body, now);
            let looking = after_record(app, turn, recorded_at);
            &&& records_then(
                app,
                turn,
                event_id,
                event_type,
                recorded_at,
                ActionModel::Get { creator, bundle_id },
            )
            &&& pulls_its_session(
                app,
                row,
                recorded_at,
                webhooks::webhook_step(app, looking, Event::Row(Ok(Some(row))), later),
            )
        }),
{
    lemma_stripe_types();
    text::lemma_split_once_unique(creator, '_', bundle_id);
    lemma_kinds();
    assert(http::WEBHOOK_TOLERANCE_SECONDS * 1_000_000_000 == 300_000_000_000);
}

/// A webhook's pull goes on as every pull does, and whatever it ends with, the
/// delivery was taken. A correlation that is not found, or not to be pulled, is
/// left alone.
pub proof fn webhook_pull_goes_on(
    app: AppState,
    pull: PullModel,
    event: Event,
    looked_at: int,
    now: int,
)
    ensures
        match verification::pull_step(pull, event) {
            TurnModel::Perform(next, action) => webhooks::webhook_step(
                app,
                WebhookModel::Pulling(pull),
                event,
                now,
            ) == TurnModel::<WebhookModel, ReplyModel>::Perform(WebhookModel::Pulling(next), action),
            TurnModel::Done(_) => webhooks::webhook_step(
                app,
                WebhookModel::Pulling(pull),
                event,
                now,
            ) == taken(),
        },
        !(event matches Event::Row(Ok(Some(_)))) ==> webhooks::webhook_step(
            app,
            WebhookModel::Looking(looked_at),
            event,
            now,
        ) == taken(),
        event matches Event::Row(Ok(Some(row))) && verification::pull_start(
            app.processors,
            row@,
            looked_at,
        ) is Done ==> webhooks::webhook_step(app, WebhookModel::Looking(looked_at), event, now)
            == taken(),
{
}

/// A Stripe event that a checkout was paid, without a reference to a
/// correlation, is recorded and nothing more.
pub proof fn unreferenced_checkout_event_leads_nowhere(
    app: AppState,
    headers: Seq<(Seq<char>, Seq<u8>)>,
    raw_body: Seq<u8>,
    now: int,
    event: JsonModel,
    event_id: Seq<char>,
    event_type: Seq<char>,
    recorded_at: int,
)
    requires
        stripe_delivers(app, headers, raw_body, now, event),
        says(event, "id"@, event_id),
        says(event, "type"@, event_type),
        is_checkout_event(event_type),
        match json::member(event, "data"@) {
            Some(data) => match json::member(data, "object"@) {
                Some(object) => match json::member(object, "client_reference_id"@) {
                    Some(JsonModel::Text(said)) => !said.contains('_'),
                    _ => true,
                },
                None => true,
            },
            None => true,
        },
    ensures
        records_only(
            app,
            webhooks::stripe_webhook_start(app, headers, raw_body, now),
            event_id,
            event_type,
            recorded_at,
        ),
{
    lemma_stripe_types();
    assert(http::WEBHOOK_TOLERANCE_SECONDS * 1_000_000_000 == 300_000_000_000);
    match json::member(event, "data"@) {
        Some(data) => match json::member(data, "object"@) {
            Some(object) => match json::member(object, "client_reference_id"@) {
                Some(JsonModel::Text(said)) => {
                    text::lemma_split_once(said, '_');
                },
                _ => {},
            },
            None => {},
        },
        None => {},
    }
}

/// A signed Stripe event that a charge was refunded or disputed is recorded;
/// when it is new, the charge is pulled. A charge that really was refunded or
/// disputed leads to the correlation of its payment intent, which is marked
/// reversed; any other charge leads nowhere.
pub proof fn charge_event_reverses_the_payment(
    app: AppState,
    headers: Seq<(Seq<char>, Seq<u8>)>,
    raw_body: Seq<u8>,
    now: int,
    event: JsonModel,
    data: JsonModel,
    object: JsonModel,
    event_id: Seq<char>,
    event_type: Seq<char>,
    charge_id: Seq<char>,
    recorded_at: int,
    charge: Charge,
    row: Correlation,
    marked: Event,
    later: int,
)
    requires
        stripe_delivers(app, headers, raw_body, now, event),
        says(event, "id"@, event_id),
        says(event, "type"@, event_type),
        is_charge_event(event_type),
        json::member(event, "data"@) == Some(data),
        json::member(data, "object"@) == Some(object),
        says(object, "id"@, charge_id),
    ensures
        ({
            let turn = webhooks::stripe_webhook_start(app, headers, raw_body, now);
            let asked = after_record(app, turn, recorded_at);
            let answered = webhooks::webhook_step(app, asked, Event::Charge(Ok(charge)), later);
            &&& records_then(
                app,
                turn,
                event_id,
                event_type,
                recorded_at,
                ActionModel::RetrieveCharge { charge_id },
            )
            &&& match charge.payment_intent {
                Some(intent) => if charge.refunded || charge.disputed {
                    &&& answered matches TurnModel::Perform(finding, find)
                    &&& find == (ActionModel::FindByPaymentIntent { reference: intent@ })
                    &&& webhooks::webhook_step(
                        app,
                        finding,
                        Event::Row(Ok(Some(row))),
                        later,
                    ) matches TurnModel::Perform(marking, mark)
                    &&& mark == (ActionModel::MarkReversed {
                        creator: row.creator@,
                        bundle_id: row.bundle_id@,
                    })
                    &&& webhooks::webhook_step(app, marking, marked, later) == taken()
                    &&& webhooks::webhook_step(app, finding, Event::Row(Ok(None)), later)
                        == taken()
                } else {
                    answered == taken()
                },
                None => answered == taken(),
            }
            &&& forall|other: Event|
                !(other matches Event::Charge(Ok(_))) ==> #[trigger] webhooks::webhook_step(
                    app,
                    asked,
                    other,
                    later,
                ) == taken()
        }),
{
    lemma_stripe_types();
    assert(http::WEBHOOK_TOLERANCE_SECONDS * 1_000_000_000 == 300_000_000_000);
}

/// A Stripe event of any other type is recorded and nothing more, and one
/// without an id or a type is refused.
pub proof fn other_stripe_events_lead_nowhere(
    app: AppState,
    headers: Seq<(Seq<char>, Seq<u8>)>,
    raw_body: Seq<u8>,
    now: int,
    event: JsonModel,
    event_id: Seq<char>,
    event_type: Seq<char>,
    recorded_at: int,
)
    requires
        stripe_delivers(app, headers, raw_body, now, event),
    ensures
        ({
            let turn = webhooks::stripe_webhook_start(app, headers, raw_body, now);
            &&& says(event, "id"@, event_id) && says(event, "type"@, event_type)
                && !is_checkout_event(event_type) && !is_charge_event(event_type)
                ==> records_only(app, turn, event_id, event_type, recorded_at)
            &&& is_silent(event, "id"@) || is_silent(event, "type"@) ==> turn == refused(
                ApiError::InvalidRequest,
            )
        }),
{
    assert(http::WEBHOOK_TOLERANCE_SECONDS * 1_000_000_000 == 300_000_000_000);
}

/// A Stripe delivery without a signature that is accepted is refused, whatever
/// it holds. A body that is no document is refused as invalid, once the
/// signature was accepted.
pub proof fn unsigned_stripe_delivery_is_refused(
    app: AppState,
    headers: Seq<(Seq<char>, Seq<u8>)>,
    raw_body: Seq<u8>,
    now: int,
    secret: Seq<char>,
)
    requires
        app.processors.stripe matches Some(stripe) && stripe.webhook() == Some(secret),
    ensures
        ({
            let turn = webhooks::stripe_webhook_start(app, headers, raw_body, now);
            match auth::header_text(headers, "stripe-signature"@) {
                Some(signature) => match stripe::webhook_verdict(
                    secret,
                    signature,
                    raw_body,
                    clock::unix_seconds(now),
                    300_000_000_000,
                ) {
                    Ok(_) => json::parsed_json(raw_body) is None ==> turn == refused(
                        ApiError::InvalidRequest,
                    ),
                    Err(_) => turn == refused(ApiError::InvalidSignature),
                },
                None => turn == refused(ApiError::InvalidSignature),
            }
        }),
{
    assert(http::WEBHOOK_TOLERANCE_SECONDS * 1_000_000_000 == 300_000_000_000);
}

/// The bytes that a Stripe signature covers are the timestamp in decimal, a
/// point and the payload.
pub proof fn stripe_signature_covers_time_and_payload(timestamp: int, payload: Seq<u8>)
    ensures
        stripe::message_bytes(timestamp, payload) == encode_utf8(decimal::decimal(timestamp)).push(
            0x2e,
        ) + payload,
{
    let numeral = decimal::decimal(timestamp);
    let point = seq!['.'];
    text::lemma_utf8_concat(numeral, point);
    assert(numeral + point =~= numeral.push('.'));
    is_ascii_chars_encode_utf8(point);
    assert(encode_utf8(point) =~= seq![0x2eu8]);
    assert(encode_utf8(numeral) + seq![0x2eu8] =~= encode_utf8(numeral).push(0x2e));
}

/// The signature header with one timestamp and one tag.
pub open spec fn header_of(timestamp: int, tag: Seq<u8>) -> Seq<char> {
    ("t="@ + decimal::decimal(timestamp)).push(',') + ("v1="@ + crypto::hex_text(tag))
}

/// A Stripe delivery with one timestamp and one tag is accepted exactly if the
/// timestamp is within the tolerance of the current time, in either direction,
/// and the tag is the HMAC of the timestamp, a point and the payload under the
/// secret.
pub proof fn stripe_delivery_is_judged_by_time_and_tag(
    secret: Seq<char>,
    timestamp: i64,
    tag: Seq<u8>,
    payload: Seq<u8>,
    now_unix: int,
    tolerance_seconds: int,
)
    ensures
        ({
            let verdict = stripe::webhook_verdict(
                secret,
                header_of(timestamp as int, tag),
                payload,
                now_unix,
                tolerance_seconds * 1_000_000_000,
            );
            let message = encode_utf8(decimal::decimal(timestamp as int)).push(0x2e) + payload;
            if now_unix - timestamp > tolerance_seconds || timestamp - now_unix
                > tolerance_seconds {
                verdict == Err::<(), WebhookError>(WebhookError::StaleTimestamp)
            } else if tag == crypto::hmac_sha256(encode_utf8(secret), message) {
                verdict == Ok::<(), WebhookError>(())
            } else {
                verdict == Err::<(), WebhookError>(WebhookError::BadSignature)
            }
        }),
{
    stripe::lemma_written_header(timestamp, tag);
    crypto::hex_round_trip(tag);
    stripe_signature_covers_time_and_payload(timestamp as int, payload);
    let candidates = seq![crypto::hex_text(tag)];
    assert(stripe::signed_header(header_of(timestamp as int, tag)) == Some(
        (timestamp as int, candidates),
    ));
    assert((tolerance_seconds * 1_000_000_000) / 1_000_000_000 == tolerance_seconds);
    let verifies = stripe::candidate_verifies(
        secret,
        crypto::hex_text(tag),
        timestamp as int,
        payload,
    );
    assert(candidates[0] == crypto::hex_text(tag));
    assert(stripe::any_verifies(secret, candidates, timestamp as int, payload) == verifies);
}

/// A header without a timestamp, or without a signature, is malformed.
pub proof fn bare_headers_are_malformed(
    secret: Seq<char>,
    timestamp: i64,
    tag: Seq<u8>,
    payload: Seq<u8>,
    now_unix: int,
    tolerance: int,
)
    ensures
        stripe::webhook_verdict(
            secret,
            "t="@ + decimal::decimal(timestamp as int),
            payload,
            now_unix,
            tolerance,
        ) == Err::<(), WebhookError>(WebhookError::MalformedHeader),
        stripe::webhook_verdict(
            secret,
            "v1="@ + crypto::hex_text(tag),
            payload,
            now_unix,
            tolerance,
        ) == Err::<(), WebhookError>(WebhookError::MalformedHeader),
{
    let first = "t="@ + decimal::decimal(timestamp as int);
    let second = "v1="@ + crypto::hex_text(tag);
    stripe::lemma_timestamp_part(timestamp);
    stripe::lemma_signature_part(tag);
    decimal::signed_round_trip(timestamp);
    text::lemma_split_all_single(first, ',');
    text::lemma_split_all_single(second, ',');
    reveal_strlit("t");
    reveal_strlit("v1");
    assert("t"@.len() == 1 && "v1"@.len() == 2);
    let none = Seq::<Seq<char>>::empty();
    assert(stripe::header_parts(none) == Some((None::<int>, none)));
    assert(seq![first].drop_last() =~= none);
    assert(seq![second].drop_last() =~= none);
    assert(stripe::header_parts(seq![first]) == Some((Some(timestamp as int), none)));
    assert(stripe::header_parts(seq![second]) == Some(
        (None::<int>, none.push(crypto::hex_text(tag))),
    ));
}

/// A signature header with one more part.
pub open spec fn with_part(header: Seq<char>, part: Seq<char>) -> Seq<char> {
    header.push(',') + part
}

proof fn lemma_one_more_part(header: Seq<char>, part: Seq<char>)
    requires
        !part.contains(','),
    ensures
        text::split_all(with_part(header, part), ',') == text::split_all(header, ',').push(part),
{
    text_laws::texts_are_split_everywhere(header, ',', part);
    text::lemma_split_all_single(part, ',');
    assert(text::split_all(header, ',') + seq![part] =~= text::split_all(header, ',').push(part));
    assert(text::split_all(header, ',').push(part).drop_last() =~= text::split_all(header, ','));
}

/// A signature header is read part by part, without the white space around a
/// part: a further `v1` part offers one more signature, a further `t` part
/// replaces the timestamp, and any other part means nothing.
pub proof fn signature_headers_are_read_by_parts(
    header: Seq<char>,
    part: Seq<char>,
    timestamp: int,
    candidates: Seq<Seq<char>>,
    later: i64,
    tag: Seq<u8>,
)
    requires
        stripe::signed_header(header) == Some((timestamp, candidates)),
        !part.contains(','),
    ensures
        ({
            let read = stripe::signed_header(with_part(header, part));
            &&& text::trim(part) == "v1="@ + crypto::hex_text(tag) ==> read == Some(
                (timestamp, candidates.push(crypto::hex_text(tag))),
            )
            &&& text::trim(part) == "t="@ + decimal::decimal(later as int) ==> read == Some(
                (later as int, candidates),
            )
            &&& !text::trim(part).contains('=') ==> read == Some((timestamp, candidates))
        }),
        forall|key: Seq<char>, value: Seq<char>|
            text::trim(part) == #[trigger] with_value(key, value) && !key.contains('=') && key
                != "t"@ && key != "v1"@ ==> stripe::signed_header(with_part(header, part)) == Some(
                (timestamp, candidates),
            ),
{
    lemma_one_more_part(header, part);
    let parts = text::split_all(header, ',');
    assert(parts.push(part).drop_last() =~= parts);
    assert(parts.push(part).last() == part);
    stripe::lemma_signature_part(tag);
    stripe::lemma_timestamp_part(later);
    decimal::signed_round_trip(later);
    text::lemma_split_once(text::trim(part), '=');
    assert("t"@ != "v1"@) by {
        reveal_strlit("t");
        reveal_strlit("v1");
        assert("t"@.len() == 1 && "v1"@.len() == 2);
    }
    assert forall|key: Seq<char>, value: Seq<char>|
        text::trim(part) == #[trigger] with_value(key, value) && !key.contains('=') && key != "t"@
            && key != "v1"@ implies stripe::signed_header(with_part(header, part)) == Some(
        (timestamp, candidates),
    ) by {
        text::lemma_split_once_unique(key, '=', value);
    }
}

/// A named value.
pub open spec fn with_value(key: Seq<char>, value: Seq<char>) -> Seq<char> {
    key.push('=') + value
}

/// A fresh delivery is accepted exactly if one of the signatures that it offers
/// is the tag of the timestamp, a point and the payload under the secret.
pub proof fn one_right_signature_is_enough(
    secret: Seq<char>,
    header: Seq<char>,
    timestamp: int,
    candidates: Seq<Seq<char>>,
    payload: Seq<u8>,
    now_unix: int,
    tolerance_seconds: int,
)
    requires
        stripe::signed_header(header) == Some((timestamp, candidates)),
        timestamp - tolerance_seconds <= now_unix <= timestamp + tolerance_seconds,
    ensures
        stripe::webhook_verdict(
            secret,
            header,
            payload,
            now_unix,
            tolerance_seconds * 1_000_000_000,
        ) == (if exists|i: int|
            0 <= i < candidates.len() && crypto::hex_bytes(#[trigger] candidates[i]) == Some(
                crypto::hmac_sha256(
                    encode_utf8(secret),
                    encode_utf8(decimal::decimal(timestamp)).push(0x2e) + payload,
                ),
            ) {
            Ok::<(), WebhookError>(())
        } else {
            Err::<(), WebhookError>(WebhookError::BadSignature)
        }),
{
    stripe_signature_covers_time_and_payload(timestamp, payload);
    assert((tolerance_seconds * 1_000_000_000) / 1_000_000_000 == tolerance_seconds);
    let message = encode_utf8(decimal::decimal(timestamp)).push(0x2e) + payload;
    let tag = crypto::hmac_sha256(encode_utf8(secret), message);
    if exists|i: int|
        0 <= i < candidates.len() && crypto::hex_bytes(#[trigger] candidates[i]) == Some(tag) {
        let i = choose|i: int|
            0 <= i < candidates.len() && crypto::hex_bytes(#[trigger] candidates[i]) == Some(tag);
        assert(stripe::candidate_verifies(secret, candidates[i], timestamp, payload));
    }
    if stripe::any_verifies(secret, candidates, timestamp, payload) {
        let i = choose|i: int|
            0 <= i < candidates.len() && stripe::candidate_verifies(
                secret,
                #[trigger] candidates[i],
                timestamp,
                payload,
            );
        assert(crypto::hex_bytes(candidates[i]) == Some(tag));
    }
}

} // verus!
