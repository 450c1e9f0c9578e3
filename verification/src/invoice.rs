//! `POST /invoices`: dispatch by the asset of the lock's payment criterion.
//! Bitcoin invoices go on to the Paykit Server as they came; fiat invoices
//! become correlations, with a checkout minted at once where the processor is
//! not a choice.

use crate::auth;
use crate::auth::Headers;
use crate::clock::Timestamp;
use crate::decimal;
use crate::effects::Action;
use crate::effects::ActionModel;
use crate::effects::Event;
use crate::effects::Reply;
use crate::effects::ReplyModel;
use crate::effects::Turn;
use crate::effects::TurnModel;
use crate::error::ApiError;
use crate::http;
use crate::http::AppState;
use crate::lock_fetch::LockCriterion;
use crate::lock_fetch::LockCriterionModel;
use crate::lock_fetch::LockFetchError;
use crate::mint;
use crate::mint::Mint;
use crate::mint::MintModel;
use crate::mint::MintTask;
use crate::mint::MintTaskModel;
use crate::mint::Minted;
use crate::mint::MintedModel;
use crate::store::InsertOutcome;
use crate::store::NewCorrelation;
use crate::store::NewCorrelationModel;
use crate::text;
use crate::wire;
use crate::wire::InvoiceRequest;
use crate::wire::InvoiceRequestModel;
use vstd::prelude::*;

verus! {

/// A fiat invoice whose criterion was read.
pub struct FiatInvoice {
    pub creator: String,
    pub bundle_id: String,
    pub asset: String,
    pub amount_minor: i64,
}

pub struct FiatInvoiceModel {
    pub creator: Seq<char>,
    pub bundle_id: Seq<char>,
    pub asset: Seq<char>,
    pub amount_minor: int,
}

impl View for FiatInvoice {
    type V = FiatInvoiceModel;

    open spec fn view(&self) -> FiatInvoiceModel {
        FiatInvoiceModel {
            creator: self.creator@,
            bundle_id: self.bundle_id@,
            asset: self.asset@,
            amount_minor: self.amount_minor as int,
        }
    }
}

/// An invoice under way, by what it waits for.
pub enum Invoice {
    Criterion {
        request: InvoiceRequest,
        creator: String,
        signature: Option<String>,
        raw_body: Vec<u8>,
    },
    Inserting(FiatInvoice),
    /// The row of an exact replay is being read.
    Replaying(FiatInvoice),
    Minting(Mint),
}

pub enum InvoiceModel {
    Criterion {
        request: InvoiceRequestModel,
        creator: Seq<char>,
        signature: Option<Seq<char>>,
        raw_body: Seq<u8>,
    },
    Inserting(FiatInvoiceModel),
    Replaying(FiatInvoiceModel),
    Minting(MintModel),
}

impl View for Invoice {
    type V = InvoiceModel;

    open spec fn view(&self) -> InvoiceModel {
        match self {
            Invoice::Criterion { request, creator, signature, raw_body } => InvoiceModel::Criterion {
                request: request@,
                creator: creator@,
                signature: text::text_opt(*signature),
                raw_body: raw_body@,
            },
            Invoice::Inserting(invoice) => InvoiceModel::Inserting(invoice@),
            Invoice::Replaying(invoice) => InvoiceModel::Replaying(invoice@),
            Invoice::Minting(mint) => InvoiceModel::Minting(mint@),
        }
    }
}

/// An invoice that ends with an error.
pub open spec fn invoice_fault(error: ApiError) -> TurnModel<InvoiceModel, ReplyModel> {
    TurnModel::Done(ReplyModel::Fault(error))
}

/// The first turn of a parsed request: the lock is read.
pub open spec fn invoice_admitted(
    request: InvoiceRequestModel,
    signature: Option<Seq<char>>,
    raw_body: Seq<u8>,
) -> TurnModel<InvoiceModel, ReplyModel> {
    if !wire::valid_id(request.bundle_id) || request.reader.len() == 0 {
        invoice_fault(ApiError::InvalidRequest)
    } else {
        match wire::lock_parts(request.lock_resource) {
            None => invoice_fault(ApiError::InvalidRequest),
            Some((creator, _)) => TurnModel::Perform(
                InvoiceModel::Criterion { request, creator, signature, raw_body },
                ActionModel::FetchCriterion { lock_resource: request.lock_resource },
            ),
        }
    }
}

/// The first turn of a raw request.
pub open spec fn invoice_start(
    app: AppState,
    headers: Seq<(Seq<char>, Seq<u8>)>,
    raw_body: Seq<u8>,
) -> TurnModel<InvoiceModel, ReplyModel> {
    if !auth::authentic(app.trusted_key@, headers, raw_body) {
        invoice_fault(ApiError::InvalidSignature)
    } else {
        match auth::strict_body::<InvoiceRequest>(raw_body) {
            None => invoice_fault(ApiError::InvalidRequest),
            Some(request) => invoice_admitted(
                request,
                auth::header_text(headers, auth::SIGNATURE_HEADER@),
                raw_body,
            ),
        }
    }
}

/// A signed call that goes on to the Paykit Server as it came.
pub open spec fn forwarded(path: Seq<char>, signature: Option<Seq<char>>, raw_body: Seq<u8>) -> ReplyModel {
    match signature {
        Some(signature) => ReplyModel::Forward { path, signature, body: raw_body },
        None => ReplyModel::Fault(ApiError::InvalidSignature),
    }
}

/// The turn that a criterion leads to. The recipient must be the creator: the
/// two are compared as bare keys.
pub open spec fn invoice_dispatched(
    app: AppState,
    request: InvoiceRequestModel,
    creator: Seq<char>,
    signature: Option<Seq<char>>,
    raw_body: Seq<u8>,
    criterion: LockCriterionModel,
) -> TurnModel<InvoiceModel, ReplyModel> {
    if criterion.asset == "BTC"@ {
        TurnModel::Done(forwarded("invoices"@, signature, raw_body))
    } else if !text::texts(app.allowed_assets@).contains(criterion.asset) {
        invoice_fault(ApiError::InvalidRequest)
    } else if http::bare_key(criterion.recipient_pubky) != http::bare_key(creator) {
        invoice_fault(ApiError::InvalidRequest)
    } else {
        match decimal::signed_value(criterion.amount) {
            Some(amount_minor) => if amount_minor <= 0 {
                invoice_fault(ApiError::InvalidRequest)
            } else if !app.processors.any() {
                invoice_fault(ApiError::Unavailable)
            } else {
                TurnModel::Perform(
                    InvoiceModel::Inserting(
                        FiatInvoiceModel {
                            creator,
                            bundle_id: request.bundle_id,
                            asset: criterion.asset,
                            amount_minor,
                        },
                    ),
                    ActionModel::Insert(
                        NewCorrelationModel {
                            creator,
                            bundle_id: request.bundle_id,
                            lock_resource: request.lock_resource,
                            reader: request.reader,
                            asset: criterion.asset,
                            amount_minor,
                        },
                    ),
                )
            },
            None => invoice_fault(ApiError::InvalidRequest),
        }
    }
}

/// The error that a failed read of a lock is answered with.
pub open spec fn lock_fault(error: LockFetchError) -> ApiError {
    match error {
        LockFetchError::NotFound => ApiError::LockNotFound,
        LockFetchError::Unavailable => ApiError::Unavailable,
        LockFetchError::Invalid => ApiError::InvalidRequest,
    }
}

/// A turn of the invoice's mint: the invoice is answered when the mint ends.
pub open spec fn invoice_minting(turn: TurnModel<MintModel, MintedModel>) -> TurnModel<
    InvoiceModel,
    ReplyModel,
> {
    match turn {
        TurnModel::Perform(mint, action) => TurnModel::Perform(
            InvoiceModel::Minting(mint),
            action,
        ),
        TurnModel::Done(MintedModel::Session(_)) => TurnModel::Done(ReplyModel::NoContent),
        TurnModel::Done(MintedModel::Fault(error)) => invoice_fault(error),
    }
}

/// A session is minted if the processor is not a choice.
pub open spec fn invoice_eager(
    app: AppState,
    invoice: FiatInvoiceModel,
    attempt: int,
) -> TurnModel<InvoiceModel, ReplyModel> {
    match app.processors.sole() {
        None => TurnModel::Done(ReplyModel::NoContent),
        Some(kind) => invoice_minting(
            mint::mint_start(
                app,
                MintTaskModel {
                    kind,
                    creator: invoice.creator,
                    bundle_id: invoice.bundle_id,
                    attempt,
                    return_origin: None,
                },
                invoice.asset,
                invoice.amount_minor,
            ),
        ),
    }
}

/// The next turn of an invoice.
pub open spec fn invoice_step(
    app: AppState,
    invoice: InvoiceModel,
    event: Event,
    now: int,
) -> TurnModel<InvoiceModel, ReplyModel> {
    match (invoice, event) {
        (
            InvoiceModel::Criterion { request, creator, signature, raw_body },
            Event::Criterion(Ok(criterion)),
        ) => invoice_dispatched(app, request, creator, signature, raw_body, criterion@),
        (InvoiceModel::Criterion { .. }, Event::Criterion(Err(error))) => invoice_fault(
            lock_fault(error),
        ),
        (InvoiceModel::Inserting(invoice), Event::Inserted(Ok(InsertOutcome::Conflict))) =>
            invoice_fault(ApiError::InvoiceConflict),
        (InvoiceModel::Inserting(invoice), Event::Inserted(Ok(InsertOutcome::ExactReplay))) =>
            TurnModel::Perform(
            InvoiceModel::Replaying(invoice),
            ActionModel::Get { creator: invoice.creator, bundle_id: invoice.bundle_id },
        ),
        (InvoiceModel::Inserting(invoice), Event::Inserted(Ok(InsertOutcome::Inserted))) =>
            invoice_eager(app, invoice, 1),
        (InvoiceModel::Replaying(invoice), Event::Row(Ok(Some(row)))) => if row.session_id is Some {
            TurnModel::Done(ReplyModel::NoContent)
        } else {
            invoice_eager(app, invoice, row.session_attempt + 1)
        },
        (InvoiceModel::Minting(mint), _) => invoice_minting(mint::mint_step(mint, event, now)),
        _ => invoice_fault(ApiError::Unavailable),
    }
}

/// Whether the attempt counter of a replayed row can be raised, where a session
/// is about to be minted for it.
pub open spec fn replay_fits(app: AppState, invoice: InvoiceModel, event: Event) -> bool {
    match (invoice, event) {
        (InvoiceModel::Replaying(_), Event::Row(Ok(Some(row)))) => row.session_id is None
            && app.processors.sole() is Some ==> row.session_attempt < i32::MAX,
        _ => true,
    }
}

fn fault(error: ApiError) -> (turn: Turn<Invoice, Reply>)
    ensures
        turn@ == invoice_fault(error),
{
    Turn::Done(Reply::Fault(error))
}

/// The reply that hands a signed call on.
pub fn forward(path: &'static str, signature: Option<String>, raw_body: Vec<u8>) -> (reply: Reply)
    ensures
        reply@ == forwarded(path@, text::text_opt(signature), raw_body@),
{
    match signature {
        Some(signature) => Reply::Forward { path, signature, body: raw_body },
        None => Reply::Fault(ApiError::InvalidSignature),
    }
}

fn minting(turn: Turn<Mint, Minted>) -> (next: Turn<Invoice, Reply>)
    ensures
        next@ == invoice_minting(turn@),
{
    match turn {
        Turn::Perform(mint, action) => Turn::Perform(Invoice::Minting(mint), action),
        Turn::Done(Minted::Session(_)) => Turn::Done(Reply::NoContent),
        Turn::Done(Minted::Fault(error)) => fault(error),
    }
}

/// The first turn of a request that was authenticated and parsed.
pub fn admit_invoice(request: InvoiceRequest, signature: Option<String>, raw_body: Vec<u8>) -> (turn:
    Turn<Invoice, Reply>)
    ensures
        turn@ == invoice_admitted(request@, text::text_opt(signature), raw_body@),
{
    if wire::validate_id(&request.bundle_id).is_err() || request.reader.as_str().unicode_len()
        == 0 {
        return fault(ApiError::InvalidRequest);
    }
    match wire::parse_lock_resource(&request.lock_resource) {
        Ok((creator, _)) => {
            let lock_resource: String = request.lock_resource.clone();
            Turn::Perform(
                Invoice::Criterion { request, creator, signature, raw_body },
                Action::FetchCriterion { lock_resource },
            )
        },
        Err(_) => fault(ApiError::InvalidRequest),
    }
}

impl AppState {
    /// The first turn of a raw request.
    pub fn create_invoice(&self, headers: &Headers, raw_body: Vec<u8>) -> (turn: Turn<
        Invoice,
        Reply,
    >)
        ensures
            turn@ == invoice_start(*self, headers@, raw_body@),
    {
        if auth::verify_signature(&self.trusted_key, headers, &raw_body).is_err() {
            return fault(ApiError::InvalidSignature);
        }
        let request: InvoiceRequest = match auth::parse_canonical_strict::<InvoiceRequest>(
            &raw_body,
        ) {
            Ok(request) => request,
            Err(error) => return fault(error),
        };
        let signature: Option<String> = http::signature_string(headers).ok();
        admit_invoice(request, signature, raw_body)
    }

    fn dispatch_invoice(
        &self,
        request: InvoiceRequest,
        creator: String,
        signature: Option<String>,
        raw_body: Vec<u8>,
        criterion: &LockCriterion,
    ) -> (turn: Turn<Invoice, Reply>)
        ensures
            turn@ == invoice_dispatched(
                *self,
                request@,
                creator@,
                text::text_opt(signature),
                raw_body@,
                criterion@,
            ),
    {
        if text::same_text(&criterion.asset, "BTC") {
            return Turn::Done(forward("invoices", signature, raw_body));
        }
        if !text::is_listed(&self.allowed_assets, &criterion.asset) {
            return fault(ApiError::InvalidRequest);
        }
        if !text::same_text(
            &http::normalized_z32(&criterion.recipient_pubky),
            &http::normalized_z32(&creator),
        ) {
            return fault(ApiError::InvalidRequest);
        }
        let amount_minor: i64 = match decimal::parse_i64(&criterion.amount) {
            Some(amount) => amount,
            None => return fault(ApiError::InvalidRequest),
        };
        if amount_minor <= 0 {
            return fault(ApiError::InvalidRequest);
        }
        if !self.processors.any_configured() {
            return fault(ApiError::Unavailable);
        }
        let invoice: FiatInvoice = FiatInvoice {
            creator: creator.clone(),
            bundle_id: request.bundle_id.clone(),
            asset: criterion.asset.clone(),
            amount_minor,
        };
        Turn::Perform(
            Invoice::Inserting(invoice),
            Action::Insert(
                NewCorrelation {
                    creator,
                    bundle_id: request.bundle_id,
                    lock_resource: request.lock_resource,
                    reader: request.reader,
                    asset: criterion.asset.clone(),
                    amount_minor,
                },
            ),
        )
    }

    fn mint_eagerly(&self, invoice: FiatInvoice, attempt: i32) -> (turn: Turn<Invoice, Reply>)
        ensures
            turn@ == invoice_eager(*self, invoice@, attempt as int),
    {
        match self.processors.sole_configured() {
            None => Turn::Done(Reply::NoContent),
            Some(kind) => {
                let task: MintTask = MintTask {
                    kind,
                    creator: invoice.creator,
                    bundle_id: invoice.bundle_id,
                    attempt,
                    return_origin: None,
                };
                minting(mint::mint_session(self, task, &invoice.asset, invoice.amount_minor))
            },
        }
    }

    /// Whether an invoice can take its next turn: it cannot when a session has
    /// to be minted for a replayed row whose attempts are used up.
    pub fn can_step_invoice(&self, invoice: &Invoice, event: &Event) -> (can: bool)
        ensures
            can == replay_fits(*self, invoice@, *event),
    {
        match (invoice, event) {
            (Invoice::Replaying(_), Event::Row(Ok(Some(row)))) => row.session_id.is_some()
                || self.processors.sole_configured().is_none() || row.session_attempt < i32::MAX,
            _ => true,
        }
    }

    /// The next turn of an invoice. An answer that does not fit counts as a
    /// failed one.
    pub fn step_invoice(&self, invoice: Invoice, event: &Event, now: Timestamp) -> (turn: Turn<
        Invoice,
        Reply,
    >)
        requires
            replay_fits(*self, invoice@, *event),
        ensures
            turn@ == invoice_step(*self, invoice@, *event, now@),
    {
        match (invoice, event) {
            (
                Invoice::Criterion { request, creator, signature, raw_body },
                Event::Criterion(answer),
            ) => match answer {
                Ok(criterion) => self.dispatch_invoice(
                    request,
                    creator,
                    signature,
                    raw_body,
                    criterion,
                ),
                Err(LockFetchError::NotFound) => fault(ApiError::LockNotFound),
                Err(LockFetchError::Unavailable) => fault(ApiError::Unavailable),
                Err(LockFetchError::Invalid) => fault(ApiError::InvalidRequest),
            },
            (Invoice::Inserting(invoice), Event::Inserted(Ok(outcome))) => match outcome {
                InsertOutcome::Conflict => fault(ApiError::InvoiceConflict),
                InsertOutcome::ExactReplay => {
                    let action: Action = Action::Get {
                        creator: invoice.creator.clone(),
                        bundle_id: invoice.bundle_id.clone(),
                    };
                    Turn::Perform(Invoice::Replaying(invoice), action)
                },
                InsertOutcome::Inserted => self.mint_eagerly(invoice, 1),
            },
            (Invoice::Replaying(invoice), Event::Row(Ok(Some(row)))) => {
                if row.session_id.is_some() || self.processors.sole_configured().is_none() {
                    return Turn::Done(Reply::NoContent);
                }
                self.mint_eagerly(invoice, row.session_attempt + 1)
            },
            (Invoice::Minting(mint), event) => minting(mint.step(event, now)),
            _ => fault(ApiError::Unavailable),
        }
    }
}

} // verus!
