//! `POST /checkout-sessions`: the buyer fetches the hosted checkout URL, and
//! picks processor and return origin while they are unbound.

use crate::clock::Timestamp;
use crate::config;
use crate::effects::Action;
use crate::effects::ActionModel;
use crate::effects::Event;
use crate::effects::Reply;
use crate::effects::ReplyModel;
use crate::effects::Turn;
use crate::effects::TurnModel;
use crate::error::ApiError;
use crate::http;
use crate::http::AppState;
use crate::mint;
use crate::mint::Mint;
use crate::mint::MintModel;
use crate::mint::MintTask;
use crate::mint::MintTaskModel;
use crate::mint::Minted;
use crate::mint::MintedModel;
use crate::store::Correlation;
use crate::store::CorrelationModel;
use crate::store::CorrelationState;
use crate::text;
use crate::verification;
use crate::verification::ProcessorKind;
use crate::wire;
use crate::wire::CheckoutSessionRequest;
use crate::wire::CheckoutSessionResponse;
use crate::wire::CheckoutSessionResponseModel;
use vstd::prelude::*;

verus! {

/// A checkout request whose choices were accepted.
pub struct Choice {
    pub creator: String,
    pub bundle_id: String,
    pub requested: Option<ProcessorKind>,
    pub requested_origin: Option<String>,
}

pub struct ChoiceModel {
    pub creator: Seq<char>,
    pub bundle_id: Seq<char>,
    pub requested: Option<ProcessorKind>,
    pub requested_origin: Option<Seq<char>>,
}

impl View for Choice {
    type V = ChoiceModel;

    open spec fn view(&self) -> ChoiceModel {
        ChoiceModel {
            creator: self.creator@,
            bundle_id: self.bundle_id@,
            requested: self.requested,
            requested_origin: text::text_opt(self.requested_origin),
        }
    }
}

/// A checkout request under way, by what it waits for.
pub enum Checkout {
    Row(Choice),
    Minting(Mint),
}

pub enum CheckoutModel {
    Row(ChoiceModel),
    Minting(MintModel),
}

impl View for Checkout {
    type V = CheckoutModel;

    open spec fn view(&self) -> CheckoutModel {
        match self {
            Checkout::Row(choice) => CheckoutModel::Row(choice@),
            Checkout::Minting(mint) => CheckoutModel::Minting(mint@),
        }
    }
}

/// A checkout request that ends with an error.
pub open spec fn checkout_fault(error: ApiError) -> TurnModel<CheckoutModel, ReplyModel> {
    TurnModel::Done(ReplyModel::Fault(error))
}

/// The named return origin, if it is one that is allowed. `spelled` is the
/// canonical spelling of the named origin, if it is an origin.
pub open spec fn allowed_origin(app: AppState, spelled: Option<Seq<char>>) -> Option<Seq<char>> {
    match spelled {
        Some(origin) => if text::texts(app.buyer_return_origins@).contains(origin) {
            Some(origin)
        } else {
            None
        },
        None => None,
    }
}

/// The first turn of a request, given the canonical spelling of its return
/// origin.
pub open spec fn checkout_chosen(
    app: AppState,
    request: CheckoutSessionRequest,
    spelled: Option<Seq<char>>,
) -> TurnModel<CheckoutModel, ReplyModel> {
    if !wire::valid_id(request.bundle_id@) || request.creator@.len() == 0 {
        checkout_fault(ApiError::InvalidRequest)
    } else if request.processor matches Some(value) && verification::kind_of(value@) is None {
        checkout_fault(ApiError::InvalidRequest)
    } else if request.return_origin is Some && allowed_origin(app, spelled) is None {
        checkout_fault(ApiError::InvalidReturnOrigin)
    } else if !app.processors.any() {
        checkout_fault(ApiError::Unavailable)
    } else {
        TurnModel::Perform(
            CheckoutModel::Row(
                ChoiceModel {
                    creator: request.creator@,
                    bundle_id: request.bundle_id@,
                    requested: match request.processor {
                        Some(value) => verification::kind_of(value@),
                        None => None,
                    },
                    requested_origin: match request.return_origin {
                        Some(_) => allowed_origin(app, spelled),
                        None => None,
                    },
                },
            ),
            ActionModel::Get { creator: request.creator@, bundle_id: request.bundle_id@ },
        )
    }
}

/// The canonical spelling of the return origin that a request names.
pub open spec fn named_origin(request: CheckoutSessionRequest) -> Option<Seq<char>> {
    match request.return_origin {
        Some(value) => config::return_origin(value@),
        None => None,
    }
}

/// The first turn of a request: refused by the rate limit, refused for its
/// body, or taken.
pub open spec fn checkout_start(
    app: AppState,
    admitted: bool,
    body: Option<CheckoutSessionRequest>,
) -> TurnModel<CheckoutModel, ReplyModel> {
    if !admitted {
        checkout_fault(ApiError::RateLimited)
    } else {
        match body {
            None => checkout_fault(ApiError::InvalidRequest),
            Some(request) => checkout_chosen(app, request, named_origin(request)),
        }
    }
}

/// The return origin of the session: the bound one stays, whatever is asked.
pub open spec fn effective_origin(row: CorrelationModel, choice: ChoiceModel) -> Option<Seq<char>> {
    match row.return_origin {
        Some(origin) => Some(origin),
        None => choice.requested_origin,
    }
}

/// A turn of the mint: the buyer is answered when it ends.
pub open spec fn checkout_minting(turn: TurnModel<MintModel, MintedModel>) -> TurnModel<
    CheckoutModel,
    ReplyModel,
> {
    match turn {
        TurnModel::Perform(mint, action) => TurnModel::Perform(
            CheckoutModel::Minting(mint),
            action,
        ),
        TurnModel::Done(MintedModel::Session(response)) => TurnModel::Done(
            ReplyModel::Checkout(response),
        ),
        TurnModel::Done(MintedModel::Fault(error)) => checkout_fault(error),
    }
}

/// What a buyer is offered on a row.
pub enum Offer {
    Fault(ApiError),
    /// The session that is there.
    Live(CheckoutSessionResponse),
    /// A session that has to be minted first.
    Mint(ProcessorKind),
}

pub enum OfferModel {
    Fault(ApiError),
    Live(CheckoutSessionResponseModel),
    Mint(ProcessorKind),
}

impl View for Offer {
    type V = OfferModel;

    open spec fn view(&self) -> OfferModel {
        match self {
            Offer::Fault(error) => OfferModel::Fault(*error),
            Offer::Live(session) => OfferModel::Live(session@),
            Offer::Mint(kind) => OfferModel::Mint(*kind),
        }
    }
}

/// A session is minted on a processor that is configured.
pub open spec fn mint_offered(app: AppState, kind: ProcessorKind) -> OfferModel {
    if app.processors.has(kind) {
        OfferModel::Mint(kind)
    } else {
        OfferModel::Fault(ApiError::Unavailable)
    }
}

/// What a buyer is offered on a fiat row. Processor and return origin are bound
/// for good: naming another one conflicts. The live session is offered if it
/// was minted for the effective origin.
pub open spec fn offered(app: AppState, choice: ChoiceModel, row: CorrelationModel, now: int) -> OfferModel {
    if row.state != CorrelationState::Created {
        OfferModel::Fault(ApiError::InvoiceConflict)
    } else if row.return_origin is Some && choice.requested_origin is Some && row.return_origin
        != choice.requested_origin {
        OfferModel::Fault(ApiError::InvoiceConflict)
    } else {
        match verification::bound(row) {
            Some(bound) => if choice.requested is Some && choice.requested != Some(bound) {
                OfferModel::Fault(ApiError::InvoiceConflict)
            } else if row.return_origin == effective_origin(row, choice) && http::live_session(
                row,
                now,
            ) is Some {
                OfferModel::Live(http::live_session(row, now)->0)
            } else {
                mint_offered(app, bound)
            },
            None => mint_offered(
                app,
                match choice.requested {
                    Some(kind) => kind,
                    None => app.default_processor,
                },
            ),
        }
    }
}

/// The turn that a fiat row leads to.
pub open spec fn checkout_known(
    app: AppState,
    choice: ChoiceModel,
    row: CorrelationModel,
    now: int,
) -> TurnModel<CheckoutModel, ReplyModel> {
    match offered(app, choice, row, now) {
        OfferModel::Fault(error) => checkout_fault(error),
        OfferModel::Live(session) => TurnModel::Done(ReplyModel::Checkout(session)),
        OfferModel::Mint(kind) => checkout_minting(
            mint::mint_start(
                app,
                MintTaskModel {
                    kind,
                    creator: choice.creator,
                    bundle_id: choice.bundle_id,
                    attempt: row.session_attempt + 1,
                    return_origin: effective_origin(row, choice),
                },
                row.asset,
                row.amount_minor,
            ),
        ),
    }
}

/// The next turn of a checkout request.
pub open spec fn checkout_step(
    app: AppState,
    checkout: CheckoutModel,
    event: Event,
    now: int,
) -> TurnModel<CheckoutModel, ReplyModel> {
    match (checkout, event) {
        (CheckoutModel::Row(choice), Event::Row(Ok(Some(row)))) => if row.asset@ == "BTC"@ {
            checkout_fault(ApiError::NotFound)
        } else {
            checkout_known(app, choice, row@, now)
        },
        (CheckoutModel::Row(choice), Event::Row(Ok(None))) => checkout_fault(ApiError::NotFound),
        (CheckoutModel::Row(choice), _) => checkout_fault(ApiError::Unavailable),
        (CheckoutModel::Minting(mint), _) => checkout_minting(mint::mint_step(mint, event, now)),
    }
}

/// Whether the attempt counter of the row can be raised, where a session is
/// about to be minted for it.
pub open spec fn checkout_fits(
    app: AppState,
    checkout: CheckoutModel,
    event: Event,
    now: int,
) -> bool {
    match (checkout, event) {
        (CheckoutModel::Row(_), Event::Row(Ok(Some(row)))) => checkout_step(
            app,
            checkout,
            event,
            now,
        ) is Perform ==> row.session_attempt < i32::MAX,
        _ => true,
    }
}

fn fault(error: ApiError) -> (turn: Turn<Checkout, Reply>)
    ensures
        turn@ == checkout_fault(error),
{
    Turn::Done(Reply::Fault(error))
}

fn minting(turn: Turn<Mint, Minted>) -> (next: Turn<Checkout, Reply>)
    ensures
        next@ == checkout_minting(turn@),
{
    match turn {
        Turn::Perform(mint, action) => Turn::Perform(Checkout::Minting(mint), action),
        Turn::Done(Minted::Session(response)) => Turn::Done(Reply::Checkout(response)),
        Turn::Done(Minted::Fault(error)) => fault(error),
    }
}

impl AppState {
    /// The first turn of a request, given whether the rate limit admits it and
    /// the body that was read.
    pub fn checkout_session(&self, admitted: bool, body: Option<CheckoutSessionRequest>) -> (turn:
        Turn<Checkout, Reply>)
        ensures
            turn@ == checkout_start(*self, admitted, body),
    {
        if !admitted {
            return fault(ApiError::RateLimited);
        }
        match body {
            Some(request) => {
                let spelled: Option<String> = match &request.return_origin {
                    Some(value) => config::parse_return_origin(value),
                    None => None,
                };
                self.choose_checkout(request, spelled)
            },
            None => fault(ApiError::InvalidRequest),
        }
    }

    /// The first turn of a request, given the canonical spelling of its return
    /// origin, if it is an origin.
    pub fn choose_checkout(&self, request: CheckoutSessionRequest, spelled: Option<String>) -> (turn:
        Turn<Checkout, Reply>)
        ensures
            turn@ == checkout_chosen(*self, request, text::text_opt(spelled)),
    {
        if wire::validate_id(&request.bundle_id).is_err() || request.creator.as_str().unicode_len()
            == 0 {
            return fault(ApiError::InvalidRequest);
        }
        let requested: Option<ProcessorKind> = match &request.processor {
            Some(value) => match ProcessorKind::parse(value) {
                Some(kind) => Some(kind),
                None => return fault(ApiError::InvalidRequest),
            },
            None => None,
        };
        let requested_origin: Option<String> = match &request.return_origin {
            Some(_) => match spelled {
                Some(origin) => {
                    if !text::is_listed(&self.buyer_return_origins, &origin) {
                        return fault(ApiError::InvalidReturnOrigin);
                    }
                    Some(origin)
                },
                None => return fault(ApiError::InvalidReturnOrigin),
            },
            None => None,
        };
        if !self.processors.any_configured() {
            return fault(ApiError::Unavailable);
        }
        let action: Action = Action::Get {
            creator: request.creator.clone(),
            bundle_id: request.bundle_id.clone(),
        };
        Turn::Perform(
            Checkout::Row(
                Choice {
                    creator: request.creator,
                    bundle_id: request.bundle_id,
                    requested,
                    requested_origin,
                },
            ),
            action,
        )
    }

    fn offer_mint(&self, kind: ProcessorKind) -> (offer: Offer)
        ensures
            offer@ == mint_offered(*self, kind),
    {
        if self.processors.is_configured(kind) {
            Offer::Mint(kind)
        } else {
            Offer::Fault(ApiError::Unavailable)
        }
    }

    /// What a buyer is offered on a fiat row.
    fn offer(&self, choice: &Choice, correlation: &Correlation, now: Timestamp) -> (offer: Offer)
        ensures
            offer@ == offered(*self, choice@, correlation@, now@),
    {
        if correlation.state != CorrelationState::Created {
            return Offer::Fault(ApiError::InvoiceConflict);
        }
        let other_origin: bool = !text::same_text_opt(
            &correlation.return_origin,
            &choice.requested_origin,
        );
        if correlation.return_origin.is_some() && choice.requested_origin.is_some()
            && other_origin {
            return Offer::Fault(ApiError::InvoiceConflict);
        }
        match verification::bound_processor(correlation) {
            Some(bound) => {
                if let Some(requested) = choice.requested {
                    if requested != bound {
                        return Offer::Fault(ApiError::InvoiceConflict);
                    }
                }
                if correlation.return_origin.is_some() || choice.requested_origin.is_none() {
                    if let Some(session) = http::find_live_session(correlation, now) {
                        return Offer::Live(session);
                    }
                }
                self.offer_mint(bound)
            },
            None => self.offer_mint(
                match choice.requested {
                    Some(kind) => kind,
                    None => self.default_processor,
                },
            ),
        }
    }

    fn serve_checkout(&self, choice: Choice, correlation: &Correlation, now: Timestamp) -> (turn:
        Turn<Checkout, Reply>)
        requires
            offered(*self, choice@, correlation@, now@) is Mint ==> correlation.session_attempt
                < i32::MAX,
        ensures
            turn@ == checkout_known(*self, choice@, correlation@, now@),
    {
        match self.offer(&choice, correlation, now) {
            Offer::Fault(error) => fault(error),
            Offer::Live(session) => Turn::Done(Reply::Checkout(session)),
            Offer::Mint(kind) => {
                let return_origin: Option<String> = match &correlation.return_origin {
                    Some(origin) => Some(origin.clone()),
                    None => choice.requested_origin,
                };
                let task: MintTask = MintTask {
                    kind,
                    creator: choice.creator,
                    bundle_id: choice.bundle_id,
                    attempt: correlation.session_attempt + 1,
                    return_origin,
                };
                minting(
                    mint::mint_session(self, task, &correlation.asset, correlation.amount_minor),
                )
            },
        }
    }

    /// Whether a checkout request can take its next turn: it cannot when a
    /// session has to be minted for a row whose attempts are used up.
    pub fn can_step_checkout(&self, checkout: &Checkout, event: &Event, now: Timestamp) -> (can:
        bool)
        ensures
            can == checkout_fits(*self, checkout@, *event, now@),
    {
        match (checkout, event) {
            (Checkout::Row(choice), Event::Row(Ok(Some(row)))) => {
                if row.session_attempt < i32::MAX || text::same_text(&row.asset, "BTC") {
                    return true;
                }
                match self.offer(choice, row, now) {
                    Offer::Mint(_) => false,
                    _ => true,
                }
            },
            _ => true,
        }
    }

    /// The next turn of a checkout request. An answer that does not fit counts
    /// as a failed one.
    pub fn step_checkout(&self, checkout: Checkout, event: &Event, now: Timestamp) -> (turn: Turn<
        Checkout,
        Reply,
    >)
        requires
            checkout_fits(*self, checkout@, *event, now@),
        ensures
            turn@ == checkout_step(*self, checkout@, *event, now@),
    {
        match (checkout, event) {
            (Checkout::Row(choice), Event::Row(Ok(Some(row)))) => {
                if text::same_text(&row.asset, "BTC") {
                    return fault(ApiError::NotFound);
                }
                self.serve_checkout(choice, row, now)
            },
            (Checkout::Row(_), Event::Row(Ok(None))) => fault(ApiError::NotFound),
            (Checkout::Row(_), _) => fault(ApiError::Unavailable),
            (Checkout::Minting(mint), event) => minting(mint.step(event, now)),
        }
    }
}

} // verus!
