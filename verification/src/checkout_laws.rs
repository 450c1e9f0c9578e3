//! What a checkout request is for: which processor a buyer is sent to, with
//! which order, and what they are answered. The laws speak of the fields of the
//! request, the row and the processors' answers.

use crate::checkout;
use crate::checkout::CheckoutModel;
use crate::checkout::ChoiceModel;
use crate::config;
use crate::crypto;
use crate::decimal;
use crate::effects::ActionModel;
use crate::effects::CheckoutOrderModel;
use crate::effects::Event;
use crate::effects::ReplyModel;
use crate::effects::TurnModel;
use crate::error::ApiError;
use crate::http::AppState;
use crate::mint;
use crate::mint::MintModel;
use crate::mint::MintStageModel;
use crate::mint::MintTaskModel;
use crate::mint::MintedModel;
use crate::payment_laws;
use crate::paypal;
use crate::paypal::Link;
use crate::paypal::Order;
use crate::store::Correlation;
use crate::store::CorrelationState;
use crate::store::SessionRecordModel;
use crate::stripe::CheckoutSession;
use crate::text;
use crate::verification::ProcessorKind;
use crate::verification::Processors;
use crate::webhook_laws;
use crate::wire;
use crate::wire::CheckoutSessionRequest;
use crate::wire::CheckoutSessionResponseModel;
use vstd::prelude::*;
use vstd::utf8::*;

verus! {

/// Whether a processor is configured.
pub open spec fn is_there(app: AppState, kind: ProcessorKind) -> bool {
    match kind {
        ProcessorKind::Stripe => app.processors.stripe is Some,
        ProcessorKind::Paypal => app.processors.paypal is Some,
    }
}

/// Whether a row belongs to a processor. A session without a processor is one
/// of Stripe.
pub open spec fn belongs_to(row: Correlation, kind: ProcessorKind) -> bool {
    match (row.processor, kind) {
        (Some(processor), ProcessorKind::Stripe) => processor@ == "stripe"@,
        (Some(processor), ProcessorKind::Paypal) => processor@ == "paypal"@,
        (None, ProcessorKind::Stripe) => row.session_id is Some,
        (None, ProcessorKind::Paypal) => false,
    }
}

/// Whether the request and the row name different return origins.
pub open spec fn origins_differ(choice: ChoiceModel, row: Correlation) -> bool {
    &&& choice.requested_origin matches Some(requested)
    &&& row.return_origin matches Some(kept)
    &&& kept@ != requested
}

/// The return origin of what is minted: the one that is kept, or else the one
/// that is asked for.
pub open spec fn origin_for(choice: ChoiceModel, row: Correlation) -> Option<Seq<char>> {
    match row.return_origin {
        Some(kept) => Some(kept@),
        None => choice.requested_origin,
    }
}

/// Whether a text is another one in lower-case letters.
pub open spec fn is_lowered(text: Seq<char>, original: Seq<char>) -> bool {
    &&& payment_laws::same_letters(text, original)
    &&& forall|i: int| 0 <= i < text.len() ==> !('A' <= #[trigger] text[i] <= 'Z')
}

/// Whether an order asks for an amount of an asset on a processor, refers to
/// its identity, and sends the buyer back to where they came from.
pub open spec fn is_order_for(
    app: AppState,
    order: CheckoutOrderModel,
    kind: ProcessorKind,
    creator: Seq<char>,
    bundle_id: Seq<char>,
    attempt: int,
    origin: Option<Seq<char>>,
    asset: Seq<char>,
    amount_minor: int,
) -> bool {
    &&& order.reference == creator + seq!['_'] + bundle_id
    &&& order.idempotency_key == "fiatv1-"@ + crypto::hex_text(
        crypto::sha256(
            encode_utf8(creator) + seq![0x1fu8] + encode_utf8(bundle_id) + seq![0x1fu8]
                + encode_utf8(decimal::decimal(attempt)),
        ),
    )
    &&& order.amount_minor == amount_minor
    &&& match kind {
        ProcessorKind::Stripe => is_lowered(order.currency, asset),
        ProcessorKind::Paypal => order.currency == asset,
    }
    &&& order.product_name == "Marketplace listing (Locks entitlement)"@
    &&& match origin {
        Some(origin) => {
            &&& order.success_url == origin + "/marketplace?checkout=return"@
            &&& order.cancel_url == origin + "/marketplace?checkout=cancel"@
        },
        None => {
            &&& order.success_url == app.checkout_success_url@
            &&& order.cancel_url == app.checkout_cancel_url@
        },
    }
}

/// What is ordered on a processor.
pub open spec fn order_on(action: ActionModel, kind: ProcessorKind) -> Option<CheckoutOrderModel> {
    match (action, kind) {
        (ActionModel::CreateCheckoutSession(order), ProcessorKind::Stripe) => Some(order),
        (ActionModel::CreateOrder(order), ProcessorKind::Paypal) => Some(order),
        _ => None,
    }
}

/// A session is ordered on the processor of its task, for the asset and the
/// amount that are given, where that processor is configured.
pub proof fn session_is_ordered_for_its_task(
    app: AppState,
    task: MintTaskModel,
    asset: Seq<char>,
    amount_minor: int,
)
    ensures
        ({
            let turn = mint::mint_start(app, task, asset, amount_minor);
            if is_there(app, task.kind) {
                &&& turn matches TurnModel::Perform(mint, action)
                &&& mint == (MintModel { task, stage: MintStageModel::Creating })
                &&& order_on(action, task.kind) matches Some(order)
                &&& is_order_for(
                    app,
                    order,
                    task.kind,
                    task.creator,
                    task.bundle_id,
                    task.attempt,
                    task.return_origin,
                    asset,
                    amount_minor,
                )
            } else {
                turn == TurnModel::<MintModel, MintedModel>::Done(
                    MintedModel::Fault(ApiError::Unavailable),
                )
            }
        }),
{
    let order = mint::checkout_order(app, task, asset, amount_minor);
    assert(order.reference =~= task.creator + seq!['_'] + task.bundle_id);
    assert(crate::stripe::key_material(task.creator, task.bundle_id, task.attempt) =~= encode_utf8(
        task.creator,
    ) + seq![0x1fu8] + encode_utf8(task.bundle_id) + seq![0x1fu8] + encode_utf8(
        decimal::decimal(task.attempt),
    ));
}

/// Whether a turn mints on a processor what the row was invoiced for, as its
/// next attempt.
pub open spec fn mints_on(
    app: AppState,
    choice: ChoiceModel,
    row: Correlation,
    kind: ProcessorKind,
    turn: TurnModel<CheckoutModel, ReplyModel>,
) -> bool {
    if is_there(app, kind) {
        &&& turn matches TurnModel::Perform(CheckoutModel::Minting(mint), action)
        &&& mint == (MintModel {
            task: MintTaskModel {
                kind,
                creator: choice.creator,
                bundle_id: choice.bundle_id,
                attempt: row.session_attempt + 1,
                return_origin: origin_for(choice, row),
            },
            stage: MintStageModel::Creating,
        })
        &&& order_on(action, kind) matches Some(order)
        &&& is_order_for(
            app,
            order,
            kind,
            choice.creator,
            choice.bundle_id,
            row.session_attempt + 1,
            origin_for(choice, row),
            row.asset@,
            row.amount_minor as int,
        )
    } else {
        turn == fails(ApiError::Unavailable)
    }
}

/// A request that is answered with an error.
pub open spec fn fails(error: ApiError) -> TurnModel<CheckoutModel, ReplyModel> {
    TurnModel::Done(ReplyModel::Fault(error))
}

/// A checkout request on an open row that belongs to no processor mints on the
/// processor that it names, or on the default one if it names none.
pub proof fn unbound_checkout_mints_on_the_chosen_processor(
    app: AppState,
    choice: ChoiceModel,
    row: Correlation,
    now: int,
)
    requires
        row.state == CorrelationState::Created,
        row.asset@ != "BTC"@,
        !belongs_to(row, ProcessorKind::Stripe),
        !belongs_to(row, ProcessorKind::Paypal),
        !origins_differ(choice, row),
    ensures
        mints_on(
            app,
            choice,
            row,
            match choice.requested {
                Some(requested) => requested,
                None => app.default_processor,
            },
            checkout::checkout_step(
                app,
                CheckoutModel::Row(choice),
                Event::Row(Ok(Some(row))),
                now,
            ),
        ),
{
    let kind = match choice.requested {
        Some(requested) => requested,
        None => app.default_processor,
    };
    session_is_ordered_for_its_task(
        app,
        MintTaskModel {
            kind,
            creator: choice.creator,
            bundle_id: choice.bundle_id,
            attempt: row.session_attempt + 1,
            return_origin: origin_for(choice, row),
        },
        row.asset@,
        row.amount_minor as int,
    );
}

/// Whether a session can still be offered: it has an address, and more than
/// sixty seconds are left until it expires.
pub open spec fn is_offerable(row: Correlation, now: int) -> bool {
    &&& row.checkout_url is Some
    &&& row.checkout_expires_at matches Some(expires_at)
    &&& expires_at > now / 1_000_000_000 + 60
}

/// The answer that sends the buyer to the row's session.
pub open spec fn offers(row: Correlation, kind: ProcessorKind) -> ReplyModel {
    ReplyModel::Checkout(
        CheckoutSessionResponseModel {
            checkout_url: row.checkout_url->0@,
            processor: match kind {
                ProcessorKind::Stripe => "stripe"@,
                ProcessorKind::Paypal => "paypal"@,
            },
            expires_at: row.checkout_expires_at->0 as int,
        },
    )
}

/// A checkout request on an open row that belongs to a processor is answered
/// with the row's session while that can be offered, and else mints another one
/// on the same processor. Asking for another processor, or another return
/// origin, conflicts. A session without a return origin does not serve a
/// request that names one.
pub proof fn bound_checkout_stays_on_its_processor(
    app: AppState,
    choice: ChoiceModel,
    row: Correlation,
    kind: ProcessorKind,
    now: int,
)
    requires
        row.state == CorrelationState::Created,
        row.asset@ != "BTC"@,
        belongs_to(row, kind),
    ensures
        ({
            let turn = checkout::checkout_step(
                app,
                CheckoutModel::Row(choice),
                Event::Row(Ok(Some(row))),
                now,
            );
            if origins_differ(choice, row) || (choice.requested is Some && choice.requested != Some(
                kind,
            )) {
                turn == fails(ApiError::InvoiceConflict)
            } else if is_offerable(row, now) && (row.return_origin is Some
                || choice.requested_origin is None) {
                turn == TurnModel::<CheckoutModel, ReplyModel>::Done(offers(row, kind))
            } else {
                mints_on(app, choice, row, kind, turn)
            }
        }),
{
    webhook_laws::lemma_kinds();
    session_is_ordered_for_its_task(
        app,
        MintTaskModel {
            kind,
            creator: choice.creator,
            bundle_id: choice.bundle_id,
            attempt: row.session_attempt + 1,
            return_origin: origin_for(choice, row),
        },
        row.asset@,
        row.amount_minor as int,
    );
}

/// A checkout request on a row that is missing, or that is a Bitcoin invoice,
/// finds nothing; on a row past `created` it conflicts; and so it does where
/// the return origins differ.
pub proof fn closed_rows_are_not_checked_out(
    app: AppState,
    choice: ChoiceModel,
    event: Event,
    now: int,
)
    ensures
        ({
            let turn = checkout::checkout_step(app, CheckoutModel::Row(choice), event, now);
            match event {
                Event::Row(Ok(Some(row))) => {
                    &&& row.asset@ == "BTC"@ ==> turn == fails(ApiError::NotFound)
                    &&& row.asset@ != "BTC"@ && (row.state != CorrelationState::Created
                        || origins_differ(choice, row)) ==> turn == fails(ApiError::InvoiceConflict)
                },
                Event::Row(Ok(None)) => turn == fails(ApiError::NotFound),
                _ => turn == fails(ApiError::Unavailable),
            }
        }),
{
}

/// Whether a text is one to a hundred and twenty-eight ASCII letters and digits.
pub open spec fn is_plain_id(value: Seq<char>) -> bool {
    &&& 0 < value.len() <= 128
    &&& forall|i: int|
        0 <= i < value.len() ==> {
            ||| '0' <= #[trigger] value[i] <= '9'
            ||| 'a' <= value[i] <= 'z'
            ||| 'A' <= value[i] <= 'Z'
        }
}

/// Bundle ids are the plain ids.
pub proof fn bundle_ids_are_plain(value: Seq<char>)
    ensures
        wire::valid_id(value) == is_plain_id(value),
{
    if forall|i: int| 0 <= i < value.len() ==> text::is_alphanumeric(#[trigger] value[i]) {
        assert(is_ascii_chars(value));
        is_ascii_chars_encode_utf8(value);
        assert forall|i: int| 0 <= i < value.len() implies {
            ||| '0' <= #[trigger] value[i] <= '9'
            ||| 'a' <= value[i] <= 'z'
            ||| 'A' <= value[i] <= 'Z'
        } by {
            assert(text::is_alphanumeric(value[i]));
        }
    }
    if is_plain_id(value) {
        assert forall|i: int| 0 <= i < value.len() implies text::is_alphanumeric(
            #[trigger] value[i],
        ) by {
            assert('0' <= value[i] <= '9' || 'a' <= value[i] <= 'z' || 'A' <= value[i] <= 'Z');
        }
    }
}

/// Whether a request names a processor that there is none of.
pub open spec fn names_no_processor(request: CheckoutSessionRequest) -> bool {
    request.processor matches Some(processor) && processor@ != "stripe"@ && processor@
        != "paypal"@
}

/// Whether a request names a return origin that is not allowed.
pub open spec fn names_other_origin(app: AppState, request: CheckoutSessionRequest) -> bool {
    &&& request.return_origin matches Some(origin)
    &&& match config::return_origin(origin@) {
        Some(spelled) => forall|i: int|
            0 <= i < app.buyer_return_origins@.len() ==> (
            #[trigger] app.buyer_return_origins@[i])@ != spelled,
        None => true,
    }
}

/// A checkout request that the rate limit admits is taken if it names a plain
/// bundle id and a creator, a processor that exists and a return origin that is
/// allowed, if any, while some processor is configured: then the row of its
/// identity is read. Anything else is refused, each for its reason.
pub proof fn checkout_requests_are_admitted(
    app: AppState,
    admitted: bool,
    body: Option<CheckoutSessionRequest>,
)
    ensures
        ({
            let turn = checkout::checkout_start(app, admitted, body);
            match body {
                _ if !admitted => turn == fails(ApiError::RateLimited),
                None => turn == fails(ApiError::InvalidRequest),
                Some(request) => if !is_plain_id(request.bundle_id@) || request.creator@.len() == 0
                    || names_no_processor(request) {
                    turn == fails(ApiError::InvalidRequest)
                } else if names_other_origin(app, request) {
                    turn == fails(ApiError::InvalidReturnOrigin)
                } else if app.processors.stripe is None && app.processors.paypal is None {
                    turn == fails(ApiError::Unavailable)
                } else {
                    &&& turn matches TurnModel::Perform(CheckoutModel::Row(choice), action)
                    &&& action == (ActionModel::Get {
                        creator: request.creator@,
                        bundle_id: request.bundle_id@,
                    })
                    &&& choice.creator == request.creator@
                    &&& choice.bundle_id == request.bundle_id@
                    &&& match request.processor {
                        Some(processor) => {
                            &&& processor@ == "stripe"@ ==> choice.requested == Some(
                                ProcessorKind::Stripe,
                            )
                            &&& processor@ == "paypal"@ ==> choice.requested == Some(
                                ProcessorKind::Paypal,
                            )
                        },
                        None => choice.requested is None,
                    }
                    &&& choice.requested_origin == (match request.return_origin {
                        Some(origin) => Some(origin@),
                        None => None,
                    })
                },
            }
        }),
{
    webhook_laws::lemma_kinds();
    assert(app.processors.has(ProcessorKind::Stripe) == app.processors.stripe is Some);
    assert(app.processors.has(ProcessorKind::Paypal) == app.processors.paypal is Some);
    match body {
        Some(request) => {
            bundle_ids_are_plain(request.bundle_id@);
            match request.return_origin {
                Some(origin) => match config::return_origin(origin@) {
                    Some(spelled) => {
                        let allowed = text::texts(app.buyer_return_origins@);
                        if allowed.contains(spelled) {
                            let i = choose|i: int| 0 <= i < allowed.len() && allowed[i] == spelled;
                            assert(app.buyer_return_origins@[i]@ == spelled);
                        } else {
                            assert forall|i: int|
                                0 <= i < app.buyer_return_origins@.len() implies (
                            #[trigger] app.buyer_return_origins@[i])@ != spelled by {
                                assert(allowed[i] == app.buyer_return_origins@[i]@);
                            }
                        }
                    },
                    None => {},
                },
                None => {},
            }
        },
        None => {},
    }
}

/// Whether a turn records a session on its row, to be offered once it is there.
pub open spec fn records_session(
    mint: MintModel,
    session_id: Seq<char>,
    checkout_url: Seq<char>,
    expires_at: int,
    turn: TurnModel<MintModel, MintedModel>,
) -> bool {
    let processor = match mint.task.kind {
        ProcessorKind::Stripe => "stripe"@,
        ProcessorKind::Paypal => "paypal"@,
    };
    turn == TurnModel::<MintModel, MintedModel>::Perform(
        MintModel {
            task: mint.task,
            stage: MintStageModel::Persisting(
                CheckoutSessionResponseModel { checkout_url, processor, expires_at },
            ),
        },
        ActionModel::SetSession {
            creator: mint.task.creator,
            bundle_id: mint.task.bundle_id,
            session: SessionRecordModel {
                processor,
                session_id,
                checkout_url,
                checkout_expires_at: expires_at,
                session_attempt: mint.task.attempt,
                return_origin: mint.task.return_origin,
            },
        },
    )
}

/// A mint that ends with an error.
pub open spec fn mint_fails(error: ApiError) -> TurnModel<MintModel, MintedModel> {
    TurnModel::Done(MintedModel::Fault(error))
}

/// A session that Stripe created is recorded under its id, with its address and
/// its expiry; one without an address is of no use.
pub proof fn created_session_is_recorded(mint: MintModel, session: CheckoutSession, now: int)
    requires
        mint.stage == MintStageModel::Creating,
        mint.task.kind == ProcessorKind::Stripe,
    ensures
        ({
            let turn = mint::mint_step(mint, Event::Session(Ok(session)), now);
            match session.url {
                Some(url) => records_session(
                    mint,
                    session.id@,
                    url@,
                    match session.expires_at {
                        Some(expires_at) => expires_at as int,
                        None => 0,
                    },
                    turn,
                ),
                None => turn == mint_fails(ApiError::Unavailable),
            }
        }),
{
}

/// Whether a link is the first of its relation.
pub open spec fn is_first_link(links: Seq<Link>, rel: Seq<char>, at: int) -> bool {
    &&& 0 <= at < links.len()
    &&& links[at].rel@ == rel
    &&& forall|j: int| 0 <= j < at ==> (#[trigger] links[j]).rel@ != rel
}

/// Whether no link is of that relation.
pub open spec fn has_no_link(links: Seq<Link>, rel: Seq<char>) -> bool {
    forall|j: int| 0 <= j < links.len() ==> (#[trigger] links[j]).rel@ != rel
}

proof fn lemma_link_target(links: Seq<Link>, rel: Seq<char>, at: int)
    ensures
        is_first_link(links, rel, at) ==> paypal::link_target(links, rel) == Some(links[at].href@),
        has_no_link(links, rel) ==> paypal::link_target(links, rel) is None,
    decreases links.len(),
{
    if links.len() > 0 {
        let rest = links.skip(1);
        lemma_link_target(rest, rel, at - 1);
        if is_first_link(links, rel, at) && at > 0 {
            assert(links[0].rel@ != rel);
            assert forall|j: int| 0 <= j < at - 1 implies (#[trigger] rest[j]).rel@ != rel by {
                assert(rest[j] == links[j + 1]);
            }
            assert(rest[at - 1] == links[at]);
        }
        if has_no_link(links, rel) {
            assert(links[0].rel@ != rel);
            assert forall|j: int| 0 <= j < rest.len() implies (#[trigger] rest[j]).rel@ != rel by {
                assert(rest[j] == links[j + 1]);
            }
        }
    }
}

/// An order that PayPal created is recorded under its id, with the address of
/// its first `payer-action` link, or without one that of its first `approve`
/// link, and expires three hours from now; one without either is of no use.
pub proof fn created_order_is_recorded(mint: MintModel, order: Order, at: int, now: int)
    requires
        mint.stage == MintStageModel::Creating,
        mint.task.kind == ProcessorKind::Paypal,
    ensures
        ({
            let links = order.links@;
            let turn = mint::mint_step(mint, Event::Order(Ok(order)), now);
            &&& is_first_link(links, "payer-action"@, at) || (has_no_link(links, "payer-action"@)
                && is_first_link(links, "approve"@, at)) ==> records_session(
                mint,
                order.id@,
                links[at].href@,
                now / 1_000_000_000 + 10_800,
                turn,
            )
            &&& has_no_link(links, "payer-action"@) && has_no_link(links, "approve"@) ==> turn
                == mint_fails(ApiError::Unavailable)
        }),
{
    lemma_link_target(order.links@, "payer-action"@, at);
    lemma_link_target(order.links@, "approve"@, at);
}

/// A mint ends without a session when the processor or the store fails, and
/// when an answer is none to what was asked.
pub proof fn failed_mint_is_unavailable(mint: MintModel, event: Event, now: int)
    requires
        match (mint.stage, mint.task.kind) {
            (MintStageModel::Creating, ProcessorKind::Stripe) => !(event matches Event::Session(
                Ok(_),
            )),
            (MintStageModel::Creating, ProcessorKind::Paypal) => !(event matches Event::Order(
                Ok(_),
            )),
            (MintStageModel::Persisting(_), _) => !(event matches Event::SessionSet(Ok(_))),
            (MintStageModel::Rereading, _) => !(event matches Event::Row(Ok(_))),
        },
    ensures
        mint::mint_step(mint, event, now) == mint_fails(ApiError::Unavailable),
{
}

/// A recorded session is offered. Where another one was recorded first, the row
/// is read again, and its session is offered if it can be; else the request
/// conflicts.
pub proof fn recorded_session_is_offered(
    mint: MintModel,
    response: CheckoutSessionResponseModel,
    row: Correlation,
    kind: ProcessorKind,
    now: int,
    later: int,
)
    requires
        mint.stage == MintStageModel::Persisting(response),
        belongs_to(row, kind),
    ensures
        mint::mint_step(mint, Event::SessionSet(Ok(true)), now) == TurnModel::<
            MintModel,
            MintedModel,
        >::Done(MintedModel::Session(response)),
        ({
            let refused = mint::mint_step(mint, Event::SessionSet(Ok(false)), now);
            &&& refused matches TurnModel::Perform(rereading, action)
            &&& action == (ActionModel::Get {
                creator: mint.task.creator,
                bundle_id: mint.task.bundle_id,
            })
            &&& mint::mint_step(rereading, Event::Row(Ok(None)), later) == mint_fails(
                ApiError::InvoiceConflict,
            )
            &&& match mint::mint_step(rereading, Event::Row(Ok(Some(row))), later) {
                TurnModel::Done(MintedModel::Session(session)) => {
                    &&& row.state == CorrelationState::Created
                    &&& is_offerable(row, later)
                    &&& ReplyModel::Checkout(session) == offers(row, kind)
                },
                TurnModel::Done(MintedModel::Fault(error)) => {
                    &&& error == ApiError::InvoiceConflict
                    &&& !(row.state == CorrelationState::Created && is_offerable(row, later))
                },
                TurnModel::Perform(_, _) => false,
            }
        }),
{
    webhook_laws::lemma_kinds();
}

/// A checkout's mint goes on as every mint does: the buyer is answered with the
/// session that it ends with, or with its error.
pub proof fn checkout_mint_goes_on(app: AppState, mint: MintModel, event: Event, now: int)
    ensures
        ({
            let turn = checkout::checkout_step(app, CheckoutModel::Minting(mint), event, now);
            match mint::mint_step(mint, event, now) {
                TurnModel::Perform(next, action) => turn == TurnModel::<
                    CheckoutModel,
                    ReplyModel,
                >::Perform(CheckoutModel::Minting(next), action),
                TurnModel::Done(MintedModel::Session(session)) => turn == TurnModel::<
                    CheckoutModel,
                    ReplyModel,
                >::Done(ReplyModel::Checkout(session)),
                TurnModel::Done(MintedModel::Fault(error)) => turn == fails(error),
            }
        }),
{
}

/// A checkout request can take its next turn unless it would mint for a row
/// whose attempts are used up.
pub proof fn only_used_up_rows_are_stuck(
    app: AppState,
    checkout: CheckoutModel,
    event: Event,
    now: int,
)
    ensures
        checkout::checkout_fits(app, checkout, event, now) <==> !{
            &&& checkout is Row
            &&& event matches Event::Row(Ok(Some(row)))
            &&& row.session_attempt == 0x7fff_ffff
            &&& checkout::checkout_step(app, checkout, event, now) is Perform
        },
{
}

/// A processor is the only one exactly if it is configured and the other is not.
pub proof fn the_only_processor_is_no_choice(processors: Processors)
    ensures
        processors.sole() == Some(ProcessorKind::Stripe) <==> processors.stripe is Some
            && processors.paypal is None,
        processors.sole() == Some(ProcessorKind::Paypal) <==> processors.paypal is Some
            && processors.stripe is None,
        processors.any() <==> processors.stripe is Some || processors.paypal is Some,
{
    assert(processors.has(ProcessorKind::Stripe) == processors.stripe is Some);
    assert(processors.has(ProcessorKind::Paypal) == processors.paypal is Some);
}

} // verus!
