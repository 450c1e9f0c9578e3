//! What an invoice request is for: who may send it, which lock it reads, and
//! what is stored and ordered for it. The laws speak of the headers, the
//! members of the documents and the fields of the answers.

use crate::auth;
use crate::auth::StrictBody;
use crate::checkout_laws;
use crate::crypto;
use crate::decimal;
use crate::effects::ActionModel;
use crate::effects::Event;
use crate::effects::ReplyModel;
use crate::effects::TurnModel;
use crate::error::ApiError;
use crate::http;
use crate::http::AppState;
use crate::invoice;
use crate::invoice::FiatInvoiceModel;
use crate::invoice::InvoiceModel;
use crate::json;
use crate::json::JsonModel;
use crate::lock_fetch;
use crate::lock_fetch::LockCriterion;
use crate::lock_fetch::LockCriterionModel;
use crate::lock_fetch::LockFetchError;
use crate::mint;
use crate::mint::MintModel;
use crate::mint::MintStageModel;
use crate::mint::MintTaskModel;
use crate::mint::MintedModel;
use crate::status;
use crate::status::StatusCheckModel;
use crate::store::Correlation;
use crate::store::InsertOutcome;
use crate::store::NewCorrelationModel;
use crate::text;
use crate::verification::ProcessorKind;
use crate::webhook_laws;
use crate::wire;
use crate::wire::InvoiceRequest;
use crate::wire::InvoiceRequestModel;
use crate::wire::StatusRequest;
use crate::wire::StatusRequestModel;
use vstd::prelude::*;
use vstd::utf8::*;

verus! {

/// Whether a header is the first of its name.
pub open spec fn is_first_header(
    headers: Seq<(Seq<char>, Seq<u8>)>,
    name: Seq<char>,
    at: int,
) -> bool {
    &&& 0 <= at < headers.len()
    &&& headers[at].0 == name
    &&& forall|j: int| 0 <= j < at ==> (#[trigger] headers[j]).0 != name
}

/// Whether no header has that name.
pub open spec fn has_no_header(headers: Seq<(Seq<char>, Seq<u8>)>, name: Seq<char>) -> bool {
    forall|j: int| 0 <= j < headers.len() ==> (#[trigger] headers[j]).0 != name
}

/// Whether bytes are the ASCII text, of visible characters, spaces and tabs.
pub open spec fn spells(bytes: Seq<u8>, said: Seq<char>) -> bool {
    &&& bytes.len() == said.len()
    &&& forall|i: int| 0 <= i < bytes.len() ==> #[trigger] bytes[i] as int == said[i] as int
    &&& forall|i: int|
        0 <= i < bytes.len() ==> (0x20 <= #[trigger] bytes[i] <= 0x7e || bytes[i] == 0x09)
}

proof fn lemma_header_values(headers: Seq<(Seq<char>, Seq<u8>)>, name: Seq<char>, at: int)
    ensures
        has_no_header(headers, name) ==> auth::header_values(headers, name).len() == 0,
        is_first_header(headers, name, at) ==> {
            &&& auth::header_values(headers, name).len() > 0
            &&& auth::header_values(headers, name)[0] == headers[at].1
            &&& (forall|j: int| at < j < headers.len() ==> (#[trigger] headers[j]).0 != name)
                ==> auth::header_values(headers, name).len() == 1
            &&& (exists|j: int| at < j < headers.len() && (#[trigger] headers[j]).0 == name)
                ==> auth::header_values(headers, name).len() > 1
        },
    decreases headers.len(),
{
    if headers.len() > 0 {
        let front = headers.drop_last();
        let last = headers.len() - 1;
        lemma_header_values(front, name, at);
        if has_no_header(headers, name) {
            assert(headers[last].0 != name);
            assert(has_no_header(front, name)) by {
                assert forall|j: int| 0 <= j < front.len() implies (#[trigger] front[j]).0 != name by {
                    assert(front[j] == headers[j]);
                }
            }
        }
        if is_first_header(headers, name, at) {
            assert forall|j: int| 0 <= j < at implies (#[trigger] front[j]).0 != name by {
                assert(front[j] == headers[j]);
            }
            if at == last {
                assert(has_no_header(front, name));
            } else {
                assert(is_first_header(front, name, at));
                if forall|j: int| at < j < headers.len() ==> (#[trigger] headers[j]).0 != name {
                    assert forall|j: int| at < j < front.len() implies (#[trigger] front[j]).0
                        != name by {
                        assert(front[j] == headers[j]);
                    }
                    assert(headers[last].0 != name);
                }
                if exists|j: int| at < j < headers.len() && (#[trigger] headers[j]).0 == name {
                    let j = choose|j: int|
                        at < j < headers.len() && (#[trigger] headers[j]).0 == name;
                    if j < last {
                        assert(front[j].0 == name);
                    }
                }
            }
        }
    }
}

/// The text of a header is that of the first one of its name; bytes that are no
/// visible ASCII have no text.
pub proof fn headers_are_read_by_name(
    headers: Seq<(Seq<char>, Seq<u8>)>,
    name: Seq<char>,
    at: int,
    said: Seq<char>,
)
    ensures
        has_no_header(headers, name) ==> auth::header_text(headers, name) is None,
        is_first_header(headers, name, at) && spells(headers[at].1, said) ==> auth::header_text(
            headers,
            name,
        ) == Some(said),
        is_first_header(headers, name, at) && auth::header_text(headers, name) is Some ==> spells(
            headers[at].1,
            auth::header_text(headers, name)->0,
        ),
{
    lemma_header_values(headers, name, at);
    if is_first_header(headers, name, at) {
        let bytes = headers[at].1;
        if spells(bytes, said) {
            assert forall|i: int| 0 <= i < bytes.len() implies auth::is_visible(
                #[trigger] bytes[i],
            ) by {
                assert(0x20 <= bytes[i] <= 0x7e || bytes[i] == 0x09);
            }
            assert(auth::value_text(bytes)->0 =~= said) by {
                assert forall|i: int| 0 <= i < said.len() implies auth::value_text(bytes)->0[i]
                    == said[i] by {
                    assert(bytes[i] as int == said[i] as int);
                }
            }
        }
        if auth::header_text(headers, name) is Some {
            let text = auth::header_text(headers, name)->0;
            assert forall|i: int| 0 <= i < bytes.len() implies #[trigger] bytes[i] as int
                == text[i] as int && (0x20 <= bytes[i] <= 0x7e || bytes[i] == 0x09) by {
                assert(auth::is_visible(bytes[i]));
            }
        }
    }
}

/// A request is authentic exactly if it has one `x-paykit-signature` header
/// whose text is the canonical spelling of sixty-four bytes that verify over
/// the body under the pinned key.
pub proof fn requests_are_signed_once(
    key: Seq<u8>,
    headers: Seq<(Seq<char>, Seq<u8>)>,
    body: Seq<u8>,
    at: int,
    encoded: Seq<char>,
)
    ensures
        has_no_header(headers, "x-paykit-signature"@) ==> !auth::authentic(key, headers, body),
        is_first_header(headers, "x-paykit-signature"@, at) && (exists|j: int|
            at < j < headers.len() && (#[trigger] headers[j]).0 == "x-paykit-signature"@)
            ==> !auth::authentic(key, headers, body),
        is_first_header(headers, "x-paykit-signature"@, at) && (forall|j: int|
            at < j < headers.len() ==> (#[trigger] headers[j]).0 != "x-paykit-signature"@)
            && spells(headers[at].1, encoded) ==> (auth::authentic(key, headers, body) <==> (
        crypto::base64url_bytes(encoded) matches Some(signature) && signature.len() == 64
            && crypto::base64url_text(signature) == encoded && crypto::ed25519_verifies(
            key,
            body,
            signature,
        ))),
{
    lemma_header_values(headers, "x-paykit-signature"@, at);
    headers_are_read_by_name(headers, "x-paykit-signature"@, at, encoded);
}

/// Whether a document is an object of exactly the members of an invoice request.
pub open spec fn is_invoice_document(
    tree: JsonModel,
    bundle_id: Seq<char>,
    lock_resource: Seq<char>,
    reader: Seq<char>,
) -> bool {
    &&& tree matches JsonModel::Object(members)
    &&& members.len() == 3
    &&& webhook_laws::says(tree, "bundle_id"@, bundle_id)
    &&& webhook_laws::says(tree, "lock_resource"@, lock_resource)
    &&& webhook_laws::says(tree, "reader"@, reader)
}

/// An invoice request is read from an object of its three members, and from no
/// object with fewer or more, or without one of them as a text.
pub proof fn invoice_requests_are_strict(
    tree: JsonModel,
    bundle_id: Seq<char>,
    lock_resource: Seq<char>,
    reader: Seq<char>,
)
    requires
        tree is Object,
    ensures
        is_invoice_document(tree, bundle_id, lock_resource, reader) ==> InvoiceRequest::body_of(tree)
            == Some(InvoiceRequestModel { bundle_id, lock_resource, reader }),
        InvoiceRequest::body_of(tree) matches Some(body) ==> is_invoice_document(
            tree,
            body.bundle_id,
            body.lock_resource,
            body.reader,
        ),
{
    let names = seq!["bundle_id"@, "lock_resource"@, "reader"@];
    assert(names[0] == "bundle_id"@ && names[1] == "lock_resource"@ && names[2] == "reader"@);
    if InvoiceRequest::body_of(tree) is Some {
        assert(json::member_text(tree, names[0]) is Some);
        assert(json::member_text(tree, names[1]) is Some);
        assert(json::member_text(tree, names[2]) is Some);
    }
}

/// A status request is read from an object of its two members, and from no
/// object with fewer or more, or without one of them as a text.
pub proof fn status_requests_are_strict(
    tree: JsonModel,
    creator: Seq<char>,
    bundle_id: Seq<char>,
)
    requires
        tree is Object,
    ensures
        ({
            let strict = tree->Object_0.len() == 2;
            &&& strict && webhook_laws::says(tree, "creator"@, creator) && webhook_laws::says(
                tree,
                "bundle_id"@,
                bundle_id,
            ) ==> StatusRequest::body_of(tree) == Some(StatusRequestModel { creator, bundle_id })
            &&& StatusRequest::body_of(tree) matches Some(body) ==> {
                &&& strict
                &&& webhook_laws::says(tree, "creator"@, body.creator)
                &&& webhook_laws::says(tree, "bundle_id"@, body.bundle_id)
            }
        }),
{
    let names = seq!["creator"@, "bundle_id"@];
    assert(names[0] == "creator"@ && names[1] == "bundle_id"@);
    if StatusRequest::body_of(tree) is Some {
        assert(json::member_text(tree, names[0]) is Some);
        assert(json::member_text(tree, names[1]) is Some);
    }
}

/// A body is read only if its bytes are the canonical form of what they parse
/// into.
pub proof fn bodies_are_canonical(raw_body: Seq<u8>, tree: JsonModel)
    ensures
        json::parsed_json(raw_body) is None ==> auth::strict_body::<InvoiceRequest>(raw_body) is None
            && auth::strict_body::<StatusRequest>(raw_body) is None,
        json::parsed_json(raw_body) == Some(tree) ==> if json::canonical_json(tree) == Some(
            raw_body,
        ) {
            &&& auth::strict_body::<InvoiceRequest>(raw_body) == InvoiceRequest::body_of(tree)
            &&& auth::strict_body::<StatusRequest>(raw_body) == StatusRequest::body_of(tree)
        } else {
            &&& auth::strict_body::<InvoiceRequest>(raw_body) is None
            &&& auth::strict_body::<StatusRequest>(raw_body) is None
        },
{
}

/// Whether a lock resource is the address of a public path below a creator, in
/// five hundred and twelve bytes at most.
pub open spec fn is_address(
    resource: Seq<char>,
    creator: Seq<char>,
    rest: Seq<char>,
) -> bool {
    &&& resource == creator + "/pub/"@ + rest
    &&& creator.len() > 0
    &&& !creator.contains('/')
    &&& text::byte_len(resource) <= 512
}

/// A lock resource is split into creator and path exactly if it is such an
/// address.
pub proof fn lock_resources_are_addresses(
    resource: Seq<char>,
    creator: Seq<char>,
    rest: Seq<char>,
)
    ensures
        is_address(resource, creator, rest) ==> wire::lock_parts(resource) == Some(
            (creator, "/pub/"@ + rest),
        ),
        wire::lock_parts(resource) matches Some((found, path)) ==> is_address(
            resource,
            found,
            path.skip(5),
        ),
{
    reveal_strlit("/pub/");
    if is_address(resource, creator, rest) {
        let behind = "/pub/"@.skip(1) + rest;
        text::lemma_split_once_unique(creator, '/', behind);
        assert(resource =~= creator.push('/') + behind);
        let path = seq!['/'] + behind;
        assert(path =~= "/pub/"@ + rest);
        assert(path.subrange(0, 5) =~= "/pub/"@);
    }
    wire::lock_parts_rejoin(resource);
    match wire::lock_parts(resource) {
        Some((found, path)) => {
            assert(path =~= path.subrange(0, 5) + path.skip(5));
            assert(resource =~= found + "/pub/"@ + path.skip(5));
        },
        None => {},
    }
}

/// A request that is answered with an error.
pub open spec fn fails(error: ApiError) -> TurnModel<InvoiceModel, ReplyModel> {
    TurnModel::Done(ReplyModel::Fault(error))
}

/// An authentic invoice request with a plain bundle id, a reader and the address
/// of a lock leads to a read of that lock.
pub proof fn invoice_reads_its_lock(
    app: AppState,
    headers: Seq<(Seq<char>, Seq<u8>)>,
    raw_body: Seq<u8>,
    request: InvoiceRequestModel,
    creator: Seq<char>,
    rest: Seq<char>,
)
    requires
        auth::authentic(app.trusted_key@, headers, raw_body),
        auth::strict_body::<InvoiceRequest>(raw_body) == Some(request),
    ensures
        ({
            let turn = invoice::invoice_start(app, headers, raw_body);
            &&& checkout_laws::is_plain_id(request.bundle_id) && request.reader.len() > 0
                && is_address(request.lock_resource, creator, rest) ==> turn
                == TurnModel::<InvoiceModel, ReplyModel>::Perform(
                InvoiceModel::Criterion {
                    request,
                    creator,
                    signature: auth::header_text(headers, "x-paykit-signature"@),
                    raw_body,
                },
                ActionModel::FetchCriterion { lock_resource: request.lock_resource },
            )
            &&& !checkout_laws::is_plain_id(request.bundle_id) || request.reader.len() == 0
                || wire::lock_parts(request.lock_resource) is None ==> turn == fails(
                ApiError::InvalidRequest,
            )
        }),
{
    checkout_laws::bundle_ids_are_plain(request.bundle_id);
    lock_resources_are_addresses(request.lock_resource, creator, rest);
}

/// A signed request whose body cannot be read is refused.
pub proof fn unreadable_requests_are_refused(
    app: AppState,
    headers: Seq<(Seq<char>, Seq<u8>)>,
    raw_body: Seq<u8>,
)
    requires
        auth::authentic(app.trusted_key@, headers, raw_body),
    ensures
        auth::strict_body::<InvoiceRequest>(raw_body) is None ==> invoice::invoice_start(
            app,
            headers,
            raw_body,
        ) == fails(ApiError::InvalidRequest),
        auth::strict_body::<StatusRequest>(raw_body) is None ==> status::status_start(
            app,
            headers,
            raw_body,
        ) == TurnModel::<StatusCheckModel, ReplyModel>::Done(
            ReplyModel::Fault(ApiError::InvalidRequest),
        ),
{
}

/// An authentic status request with a plain bundle id and a creator leads to a
/// read of the row of its identity; any other one is refused.
pub proof fn status_reads_its_row(
    app: AppState,
    headers: Seq<(Seq<char>, Seq<u8>)>,
    raw_body: Seq<u8>,
    request: StatusRequestModel,
)
    requires
        auth::authentic(app.trusted_key@, headers, raw_body),
        auth::strict_body::<StatusRequest>(raw_body) == Some(request),
    ensures
        ({
            let turn = status::status_start(app, headers, raw_body);
            if checkout_laws::is_plain_id(request.bundle_id) && request.creator.len() > 0 {
                turn == TurnModel::<StatusCheckModel, ReplyModel>::Perform(
                    StatusCheckModel::Row {
                        request,
                        signature: auth::header_text(headers, "x-paykit-signature"@),
                        raw_body,
                    },
                    ActionModel::Get { creator: request.creator, bundle_id: request.bundle_id },
                )
            } else {
                turn == TurnModel::<StatusCheckModel, ReplyModel>::Done(
                    ReplyModel::Fault(ApiError::InvalidRequest),
                )
            }
        }),
{
    checkout_laws::bundle_ids_are_plain(request.bundle_id);
}

/// The `pubky` prefix of an app key does not belong to the key.
pub proof fn keys_are_told_without_prefix(key: Seq<char>)
    ensures
        http::bare_key("pubky"@ + key) == key,
        key.len() < 5 || key.take(5) != "pubky"@ ==> http::bare_key(key) == key,
{
    reveal_strlit("pubky");
    let whole = "pubky"@ + key;
    assert(whole.subrange(0, 5) =~= "pubky"@);
    assert(whole.skip(5) =~= key);
    assert(key.len() >= 5 ==> key.subrange(0, 5) =~= key.take(5));
}

/// Whether a criterion asks for an amount of fiat that can be paid to the
/// creator.
pub open spec fn is_payable(
    app: AppState,
    criterion: LockCriterion,
    creator: Seq<char>,
    amount_minor: int,
) -> bool {
    &&& criterion.asset@ != "BTC"@
    &&& exists|i: int|
        0 <= i < app.allowed_assets@.len() && (#[trigger] app.allowed_assets@[i])@
            == criterion.asset@
    &&& http::bare_key(criterion.recipient_pubky@) == http::bare_key(creator)
    &&& decimal::signed_value(criterion.amount@) == Some(amount_minor)
    &&& amount_minor > 0
}

/// A fiat invoice stores a correlation with exactly the terms of the request and
/// of the lock, where some processor is configured.
pub proof fn fiat_invoice_is_stored(
    app: AppState,
    request: InvoiceRequestModel,
    creator: Seq<char>,
    signature: Option<Seq<char>>,
    raw_body: Seq<u8>,
    criterion: LockCriterion,
    amount_minor: int,
    now: int,
)
    requires
        is_payable(app, criterion, creator, amount_minor),
    ensures
        ({
            let turn = invoice::invoice_step(
                app,
                InvoiceModel::Criterion { request, creator, signature, raw_body },
                Event::Criterion(Ok(criterion)),
                now,
            );
            if app.processors.stripe is Some || app.processors.paypal is Some {
                turn == TurnModel::<InvoiceModel, ReplyModel>::Perform(
                    InvoiceModel::Inserting(
                        FiatInvoiceModel {
                            creator,
                            bundle_id: request.bundle_id,
                            asset: criterion.asset@,
                            amount_minor,
                        },
                    ),
                    ActionModel::Insert(
                        NewCorrelationModel {
                            creator,
                            bundle_id: request.bundle_id,
                            lock_resource: request.lock_resource,
                            reader: request.reader,
                            asset: criterion.asset@,
                            amount_minor,
                        },
                    ),
                )
            } else {
                turn == fails(ApiError::Unavailable)
            }
        }),
{
    let i = choose|i: int|
        0 <= i < app.allowed_assets@.len() && (#[trigger] app.allowed_assets@[i])@
            == criterion.asset@;
    assert(text::texts(app.allowed_assets@)[i] == criterion.asset@);
    assert(app.processors.has(ProcessorKind::Stripe) == app.processors.stripe is Some);
    assert(app.processors.has(ProcessorKind::Paypal) == app.processors.paypal is Some);
}

/// A fiat invoice that cannot be paid to the creator is refused, and a lock that
/// cannot be read is answered for its reason.
pub proof fn unpayable_invoice_is_refused(
    app: AppState,
    request: InvoiceRequestModel,
    creator: Seq<char>,
    signature: Option<Seq<char>>,
    raw_body: Seq<u8>,
    criterion: LockCriterion,
    event: Event,
    now: int,
)
    requires
        criterion.asset@ != "BTC"@,
        forall|amount_minor: int| !#[trigger] is_payable(app, criterion, creator, amount_minor),
    ensures
        ({
            let flow = InvoiceModel::Criterion { request, creator, signature, raw_body };
            &&& invoice::invoice_step(app, flow, Event::Criterion(Ok(criterion)), now) == fails(
                ApiError::InvalidRequest,
            )
            &&& invoice::invoice_step(
                app,
                flow,
                Event::Criterion(Err(LockFetchError::NotFound)),
                now,
            ) == fails(ApiError::LockNotFound)
            &&& invoice::invoice_step(
                app,
                flow,
                Event::Criterion(Err(LockFetchError::Unavailable)),
                now,
            ) == fails(ApiError::Unavailable)
            &&& invoice::invoice_step(
                app,
                flow,
                Event::Criterion(Err(LockFetchError::Invalid)),
                now,
            ) == fails(ApiError::InvalidRequest)
            &&& !(event is Criterion) ==> invoice::invoice_step(app, flow, event, now) == fails(
                ApiError::Unavailable,
            )
        }),
{
    match decimal::signed_value(criterion.amount@) {
        Some(amount_minor) => {
            assert(!is_payable(app, criterion, creator, amount_minor));
            let allowed = text::texts(app.allowed_assets@);
            if allowed.contains(criterion.asset@) {
                let i = choose|i: int|
                    0 <= i < allowed.len() && allowed[i] == criterion.asset@;
                assert(app.allowed_assets@[i]@ == criterion.asset@);
            }
        },
        None => {},
    }
}

/// Whether a turn mints the session of an invoice on the only processor there
/// is, or ends where there is a choice.
pub open spec fn mints_alone(
    app: AppState,
    invoice: FiatInvoiceModel,
    attempt: int,
    turn: TurnModel<InvoiceModel, ReplyModel>,
) -> bool {
    if (app.processors.stripe is Some) == (app.processors.paypal is Some) {
        turn == TurnModel::<InvoiceModel, ReplyModel>::Done(ReplyModel::NoContent)
    } else {
        let kind = if app.processors.stripe is Some {
            ProcessorKind::Stripe
        } else {
            ProcessorKind::Paypal
        };
        &&& turn matches TurnModel::Perform(InvoiceModel::Minting(mint), action)
        &&& mint == (MintModel {
            task: MintTaskModel {
                kind,
                creator: invoice.creator,
                bundle_id: invoice.bundle_id,
                attempt,
                return_origin: None,
            },
            stage: MintStageModel::Creating,
        })
        &&& checkout_laws::order_on(action, kind) matches Some(order)
        &&& checkout_laws::is_order_for(
            app,
            order,
            kind,
            invoice.creator,
            invoice.bundle_id,
            attempt,
            None,
            invoice.asset,
            invoice.amount_minor,
        )
    }
}

proof fn lemma_eager(app: AppState, invoice: FiatInvoiceModel, attempt: int)
    ensures
        mints_alone(app, invoice, attempt, invoice::invoice_eager(app, invoice, attempt)),
{
    match app.processors.sole() {
        Some(kind) => {
            checkout_laws::session_is_ordered_for_its_task(
                app,
                MintTaskModel {
                    kind,
                    creator: invoice.creator,
                    bundle_id: invoice.bundle_id,
                    attempt,
                    return_origin: None,
                },
                invoice.asset,
                invoice.amount_minor,
            );
        },
        None => {},
    }
}

/// A stored invoice mints its first session where there is one processor. A
/// repeated one reads its row, and mints the next session where the row has
/// none yet. Other terms under the same identity conflict.
pub proof fn stored_invoice_is_minted(
    app: AppState,
    invoice: FiatInvoiceModel,
    row: Correlation,
    event: Event,
    now: int,
)
    ensures
        mints_alone(
            app,
            invoice,
            1,
            invoice::invoice_step(
                app,
                InvoiceModel::Inserting(invoice),
                Event::Inserted(Ok(InsertOutcome::Inserted)),
                now,
            ),
        ),
        invoice::invoice_step(
            app,
            InvoiceModel::Inserting(invoice),
            Event::Inserted(Ok(InsertOutcome::Conflict)),
            now,
        ) == fails(ApiError::InvoiceConflict),
        invoice::invoice_step(
            app,
            InvoiceModel::Inserting(invoice),
            Event::Inserted(Ok(InsertOutcome::ExactReplay)),
            now,
        ) == TurnModel::<InvoiceModel, ReplyModel>::Perform(
            InvoiceModel::Replaying(invoice),
            ActionModel::Get { creator: invoice.creator, bundle_id: invoice.bundle_id },
        ),
        !(event matches Event::Inserted(Ok(_))) ==> invoice::invoice_step(
            app,
            InvoiceModel::Inserting(invoice),
            event,
            now,
        ) == fails(ApiError::Unavailable),
        ({
            let turn = invoice::invoice_step(
                app,
                InvoiceModel::Replaying(invoice),
                Event::Row(Ok(Some(row))),
                now,
            );
            if row.session_id is Some {
                turn == TurnModel::<InvoiceModel, ReplyModel>::Done(ReplyModel::NoContent)
            } else {
                mints_alone(app, invoice, row.session_attempt + 1, turn)
            }
        }),
        !(event matches Event::Row(Ok(Some(_)))) ==> invoice::invoice_step(
            app,
            InvoiceModel::Replaying(invoice),
            event,
            now,
        ) == fails(ApiError::Unavailable),
{
    lemma_eager(app, invoice, 1);
    lemma_eager(app, invoice, row.session_attempt + 1);
}

/// An invoice's mint goes on as every mint does: the invoice is taken once its
/// session is there, and refused with the mint's error otherwise.
pub proof fn invoice_mint_goes_on(app: AppState, mint: MintModel, event: Event, now: int)
    ensures
        ({
            let turn = invoice::invoice_step(app, InvoiceModel::Minting(mint), event, now);
            match mint::mint_step(mint, event, now) {
                TurnModel::Perform(next, action) => turn == TurnModel::<
                    InvoiceModel,
                    ReplyModel,
                >::Perform(InvoiceModel::Minting(next), action),
                TurnModel::Done(MintedModel::Session(_)) => turn == TurnModel::<
                    InvoiceModel,
                    ReplyModel,
                >::Done(ReplyModel::NoContent),
                TurnModel::Done(MintedModel::Fault(error)) => turn == fails(error),
            }
        }),
{
}

/// Whether a criterion is the payment criterion of a lock: the first one whose
/// verifier is `paykit-payment`.
pub open spec fn is_payment_criterion(criteria: Seq<JsonModel>, at: int) -> bool {
    &&& 0 <= at < criteria.len()
    &&& webhook_laws::says(criteria[at], "verifier_type"@, "paykit-payment"@)
    &&& forall|j: int|
        0 <= j < at ==> !webhook_laws::says(
            #[trigger] criteria[j],
            "verifier_type"@,
            "paykit-payment"@,
        )
}

proof fn lemma_payment_criterion(criteria: Seq<JsonModel>, at: int)
    ensures
        is_payment_criterion(criteria, at) ==> lock_fetch::payment_criterion(criteria) == Some(
            criteria[at],
        ),
        (forall|j: int|
            0 <= j < criteria.len() ==> !webhook_laws::says(
                #[trigger] criteria[j],
                "verifier_type"@,
                "paykit-payment"@,
            )) ==> lock_fetch::payment_criterion(criteria) is None,
    decreases criteria.len(),
{
    if criteria.len() > 0 {
        let rest = criteria.skip(1);
        lemma_payment_criterion(rest, at - 1);
        if is_payment_criterion(criteria, at) && at > 0 {
            assert(!webhook_laws::says(criteria[0], "verifier_type"@, "paykit-payment"@));
            assert(rest[at - 1] == criteria[at]);
            assert forall|j: int| 0 <= j < at - 1 implies !webhook_laws::says(
                #[trigger] rest[j],
                "verifier_type"@,
                "paykit-payment"@,
            ) by {
                assert(rest[j] == criteria[j + 1]);
            }
        }
        if forall|j: int|
            0 <= j < criteria.len() ==> !webhook_laws::says(
                #[trigger] criteria[j],
                "verifier_type"@,
                "paykit-payment"@,
            ) {
            assert(!webhook_laws::says(criteria[0], "verifier_type"@, "paykit-payment"@));
            assert forall|j: int| 0 <= j < rest.len() implies !webhook_laws::says(
                #[trigger] rest[j],
                "verifier_type"@,
                "paykit-payment"@,
            ) by {
                assert(rest[j] == criteria[j + 1]);
            }
        }
    }
}

/// Whether a text is digits, of which some are not zero.
pub open spec fn is_positive_numeral(amount: Seq<char>) -> bool {
    &&& forall|i: int| 0 <= i < amount.len() ==> '0' <= #[trigger] amount[i] <= '9'
    &&& exists|i: int| 0 <= i < amount.len() && #[trigger] amount[i] != '0'
}

/// A lock is read by the parameters of its payment criterion: an asset, a
/// positive amount and a recipient, none of them empty. Anything else is no
/// lock to be paid.
pub proof fn locks_are_read_by_their_payment_criterion(
    lock: JsonModel,
    criteria: Seq<JsonModel>,
    at: int,
    params: JsonModel,
    asset: Seq<char>,
    amount: Seq<char>,
    recipient_pubky: Seq<char>,
)
    requires
        json::member(lock, "criteria"@) == Some(JsonModel::List(criteria)),
        is_payment_criterion(criteria, at),
        json::member(criteria[at], "params"@) == Some(params),
    ensures
        webhook_laws::says(params, "asset"@, asset) && webhook_laws::says(params, "amount"@, amount)
            && webhook_laws::says(params, "recipient_pubky"@, recipient_pubky)
            ==> lock_fetch::lock_criterion(lock) == (if asset.len() > 0 && is_positive_numeral(
            amount,
        ) && recipient_pubky.len() > 0 {
            Some(LockCriterionModel { asset, amount, recipient_pubky })
        } else {
            None
        }),
        webhook_laws::is_silent(params, "asset"@) || webhook_laws::is_silent(params, "amount"@)
            || webhook_laws::is_silent(params, "recipient_pubky"@) ==> lock_fetch::lock_criterion(
            lock,
        ) is None,
{
    lemma_payment_criterion(criteria, at);
    if decimal::all_digits(amount) {
        assert forall|i: int| 0 <= i < amount.len() implies '0' <= #[trigger] amount[i] <= '9' by {
            assert(decimal::is_digit(amount[i]));
        }
    }
    if is_positive_numeral(amount) {
        assert forall|i: int| 0 <= i < amount.len() implies decimal::is_digit(
            #[trigger] amount[i],
        ) by {
            assert('0' <= amount[i] <= '9');
        }
    }
}

/// A lock without criteria, or without a payment criterion, is no lock to be
/// paid.
pub proof fn locks_without_payment_are_refused(lock: JsonModel, criteria: Seq<JsonModel>)
    ensures
        !(json::member(lock, "criteria"@) matches Some(JsonModel::List(_)))
            ==> lock_fetch::lock_criterion(lock) is None,
        json::member(lock, "criteria"@) == Some(JsonModel::List(criteria)) && (forall|j: int|
            0 <= j < criteria.len() ==> !webhook_laws::says(
                #[trigger] criteria[j],
                "verifier_type"@,
                "paykit-payment"@,
            )) ==> lock_fetch::lock_criterion(lock) is None,
{
    lemma_payment_criterion(criteria, -1);
}

/// A repeated invoice can take its next turn unless it would mint for a row
/// whose attempts are used up.
pub proof fn only_used_up_replays_are_stuck(app: AppState, flow: InvoiceModel, event: Event)
    ensures
        invoice::replay_fits(app, flow, event) <==> !{
            &&& flow is Replaying
            &&& event matches Event::Row(Ok(Some(row)))
            &&& row.session_id is None
            &&& (app.processors.stripe is Some) != (app.processors.paypal is Some)
            &&& row.session_attempt == 0x7fff_ffff
        },
{
}

/// A request that is sent as a list gives its texts in the order of the members.
pub proof fn listed_requests_are_read_in_order(
    first: Seq<char>,
    second: Seq<char>,
    third: Seq<char>,
)
    ensures
        InvoiceRequest::body_of(
            JsonModel::List(
                seq![JsonModel::Text(first), JsonModel::Text(second), JsonModel::Text(third)],
            ),
        ) == Some(InvoiceRequestModel { bundle_id: first, lock_resource: second, reader: third }),
        StatusRequest::body_of(
            JsonModel::List(seq![JsonModel::Text(first), JsonModel::Text(second)]),
        ) == Some(StatusRequestModel { creator: first, bundle_id: second }),
{
    let three = seq![JsonModel::Text(first), JsonModel::Text(second), JsonModel::Text(third)];
    assert(three[0] is Text && three[1] is Text && three[2] is Text);
    let two = seq![JsonModel::Text(first), JsonModel::Text(second)];
    assert(two[0] is Text && two[1] is Text);
}

/// A raw lock is read as the document that it parses into, and as none where it
/// is no document.
pub proof fn raw_locks_are_read_as_documents(raw: Seq<u8>, lock: JsonModel)
    ensures
        json::parsed_json(raw) == Some(lock) ==> lock_fetch::document_criterion(raw)
            == lock_fetch::lock_criterion(lock),
        json::parsed_json(raw) is None ==> lock_fetch::document_criterion(raw) is None,
{
}

/// A body that is posted back is the JSON text in it; bytes that are no text
/// hold none.
pub proof fn raw_documents_are_texts(body: Seq<char>, raw: Seq<u8>)
    ensures
        json::raw_document(encode_utf8(body)) == json::raw_json(body),
        !valid_utf8(raw) ==> json::raw_document(raw) is None,
{
    encode_utf8_decode_utf8(body);
    encode_utf8_valid_utf8(body);
}

} // verus!
