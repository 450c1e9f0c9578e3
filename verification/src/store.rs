//! Correlation persistence. One row per (creator, bundle id), the invoice
//! identity that the Lock Server polls with. State transitions are monotonic:
//! created, then paid, then confirmed, with reversed as a terminal branch
//! reachable from created and paid, never from confirmed.

use crate::clock::Timestamp;
use crate::text;
use vstd::prelude::*;

verus! {

#[derive(Clone, Copy, Debug, PartialEq, Eq, Structural)]
pub enum CorrelationState {
    Created,
    Paid,
    Confirmed,
    Reversed,
}

/// The stored spelling of a state.
pub open spec fn state_text(state: CorrelationState) -> Seq<char> {
    match state {
        CorrelationState::Created => "created"@,
        CorrelationState::Paid => "paid"@,
        CorrelationState::Confirmed => "confirmed"@,
        CorrelationState::Reversed => "reversed"@,
    }
}

impl CorrelationState {
    pub fn parse(value: &str) -> (state: Option<Self>)
        ensures
            match state {
                Some(state) => value@ == state_text(state),
                None => forall|state: CorrelationState| value@ != #[trigger] state_text(state),
            },
    {
        if text::same_text(value, "created") {
            Some(CorrelationState::Created)
        } else if text::same_text(value, "paid") {
            Some(CorrelationState::Paid)
        } else if text::same_text(value, "confirmed") {
            Some(CorrelationState::Confirmed)
        } else if text::same_text(value, "reversed") {
            Some(CorrelationState::Reversed)
        } else {
            None
        }
    }

    pub fn as_str(self) -> (value: &'static str)
        ensures
            value@ == state_text(self),
    {
        match self {
            CorrelationState::Created => "created",
            CorrelationState::Paid => "paid",
            CorrelationState::Confirmed => "confirmed",
            CorrelationState::Reversed => "reversed",
        }
    }
}

/// No two states share a spelling, so that reading back a stored state gives
/// the state that was stored.
pub proof fn state_text_injective(a: CorrelationState, b: CorrelationState)
    requires
        state_text(a) == state_text(b),
    ensures
        a == b,
{
    reveal_strlit("created");
    reveal_strlit("paid");
    reveal_strlit("confirmed");
    reveal_strlit("reversed");
    assert("created"@[0] == 'c' && "confirmed"@[0] == 'c' && "created"@[1] == 'r'
        && "confirmed"@[1] == 'o');
    assert("paid"@[0] == 'p' && "reversed"@[0] == 'r');
}

#[derive(Clone, Debug)]
pub struct Correlation {
    pub creator: String,
    pub bundle_id: String,
    pub lock_resource: String,
    pub reader: String,
    pub asset: String,
    pub amount_minor: i64,
    pub state: CorrelationState,
    /// Which processor the session or order belongs to (`stripe` | `paypal`).
    /// Bound when the session is minted and never rebound: a switch could leave
    /// a payable session on the abandoned processor. A session without one is a
    /// Stripe session.
    pub processor: Option<String>,
    pub session_id: Option<String>,
    pub checkout_url: Option<String>,
    pub checkout_expires_at: Option<i64>,
    /// Buyer return origin that the session's redirect URLs were derived from;
    /// `None` stands for the static fallback URLs. Never rebound.
    pub return_origin: Option<String>,
    pub session_attempt: i32,
    /// Set by the first verified-paid pull; reversals find the correlation
    /// through it.
    pub payment_intent: Option<String>,
    pub amount_matched: bool,
    pub paid_at: Option<Timestamp>,
    /// Set by the promotion.
    pub confirmed_at: Option<Timestamp>,
}

pub struct CorrelationModel {
    pub creator: Seq<char>,
    pub bundle_id: Seq<char>,
    pub lock_resource: Seq<char>,
    pub reader: Seq<char>,
    pub asset: Seq<char>,
    pub amount_minor: int,
    pub state: CorrelationState,
    pub processor: Option<Seq<char>>,
    pub session_id: Option<Seq<char>>,
    pub checkout_url: Option<Seq<char>>,
    pub checkout_expires_at: Option<int>,
    pub return_origin: Option<Seq<char>>,
    pub session_attempt: int,
    pub payment_intent: Option<Seq<char>>,
    pub amount_matched: bool,
    pub paid_at: Option<int>,
    pub confirmed_at: Option<int>,
}

/// The instant of an optional timestamp.
pub open spec fn instant(at: Option<Timestamp>) -> Option<int> {
    match at {
        Some(at) => Some(at@),
        None => None,
    }
}

/// The value of an optional 64-bit integer.
pub open spec fn integer(value: Option<i64>) -> Option<int> {
    match value {
        Some(value) => Some(value as int),
        None => None,
    }
}

impl View for Correlation {
    type V = CorrelationModel;

    open spec fn view(&self) -> CorrelationModel {
        CorrelationModel {
            creator: self.creator@,
            bundle_id: self.bundle_id@,
            lock_resource: self.lock_resource@,
            reader: self.reader@,
            asset: self.asset@,
            amount_minor: self.amount_minor as int,
            state: self.state,
            processor: text::text_opt(self.processor),
            session_id: text::text_opt(self.session_id),
            checkout_url: text::text_opt(self.checkout_url),
            checkout_expires_at: integer(self.checkout_expires_at),
            return_origin: text::text_opt(self.return_origin),
            session_attempt: self.session_attempt as int,
            payment_intent: text::text_opt(self.payment_intent),
            amount_matched: self.amount_matched,
            paid_at: instant(self.paid_at),
            confirmed_at: instant(self.confirmed_at),
        }
    }
}

#[derive(Clone, Debug)]
pub struct NewCorrelation {
    pub creator: String,
    pub bundle_id: String,
    pub lock_resource: String,
    pub reader: String,
    pub asset: String,
    pub amount_minor: i64,
}

pub struct NewCorrelationModel {
    pub creator: Seq<char>,
    pub bundle_id: Seq<char>,
    pub lock_resource: Seq<char>,
    pub reader: Seq<char>,
    pub asset: Seq<char>,
    pub amount_minor: int,
}

impl View for NewCorrelation {
    type V = NewCorrelationModel;

    open spec fn view(&self) -> NewCorrelationModel {
        NewCorrelationModel {
            creator: self.creator@,
            bundle_id: self.bundle_id@,
            lock_resource: self.lock_resource@,
            reader: self.reader@,
            asset: self.asset@,
            amount_minor: self.amount_minor as int,
        }
    }
}

#[derive(Clone, Copy, Debug, PartialEq, Eq, Structural)]
pub enum InsertOutcome {
    Inserted,
    /// Same identity with identical terms: idempotent replay.
    ExactReplay,
    /// Same identity bound to different terms.
    Conflict,
}

#[derive(Clone, Debug)]
pub struct StoreError(pub String);

/// A freshly minted checkout session, to be recorded on its correlation.
#[derive(Clone, Debug)]
pub struct SessionRecord {
    pub processor: &'static str,
    pub session_id: String,
    pub checkout_url: String,
    pub checkout_expires_at: i64,
    pub session_attempt: i32,
    pub return_origin: Option<String>,
}

pub struct SessionRecordModel {
    pub processor: Seq<char>,
    pub session_id: Seq<char>,
    pub checkout_url: Seq<char>,
    pub checkout_expires_at: int,
    pub session_attempt: int,
    pub return_origin: Option<Seq<char>>,
}

impl View for SessionRecord {
    type V = SessionRecordModel;

    open spec fn view(&self) -> SessionRecordModel {
        SessionRecordModel {
            processor: self.processor@,
            session_id: self.session_id@,
            checkout_url: self.checkout_url@,
            checkout_expires_at: self.checkout_expires_at as int,
            session_attempt: self.session_attempt as int,
            return_origin: text::text_opt(self.return_origin),
        }
    }
}

/// The row that a new correlation starts as.
pub open spec fn opened(new: NewCorrelationModel) -> CorrelationModel {
    CorrelationModel {
        creator: new.creator,
        bundle_id: new.bundle_id,
        lock_resource: new.lock_resource,
        reader: new.reader,
        asset: new.asset,
        amount_minor: new.amount_minor,
        state: CorrelationState::Created,
        processor: None,
        session_id: None,
        checkout_url: None,
        checkout_expires_at: None,
        return_origin: None,
        session_attempt: 0,
        payment_intent: None,
        amount_matched: false,
        paid_at: None,
        confirmed_at: None,
    }
}

/// The terms that an invoice binds its identity to.
pub open spec fn terms(row: CorrelationModel) -> NewCorrelationModel {
    NewCorrelationModel {
        creator: row.creator,
        bundle_id: row.bundle_id,
        lock_resource: row.lock_resource,
        reader: row.reader,
        asset: row.asset,
        amount_minor: row.amount_minor,
    }
}

/// Whether a processor may hold a session of the row: the row has none of
/// another processor.
pub open spec fn processor_fits(row: CorrelationModel, processor: Seq<char>) -> bool {
    match row.processor {
        Some(bound) => bound == processor,
        None => row.session_id is None || processor == "stripe"@,
    }
}

/// Whether a session may be recorded: the row is bound to no processor and no
/// return origin yet, or to those of the session.
pub open spec fn session_fits(row: CorrelationModel, session: SessionRecordModel) -> bool {
    &&& processor_fits(row, session.processor)
    &&& row.return_origin is None || row.return_origin == session.return_origin
}

/// The row with a session recorded on it.
pub open spec fn with_session(row: CorrelationModel, session: SessionRecordModel) -> CorrelationModel {
    CorrelationModel {
        processor: Some(session.processor),
        session_id: Some(session.session_id),
        checkout_url: Some(session.checkout_url),
        checkout_expires_at: Some(session.checkout_expires_at),
        session_attempt: session.session_attempt,
        return_origin: match session.return_origin {
            Some(origin) => Some(origin),
            None => row.return_origin,
        },
        ..row
    }
}

/// The row after a verified-paid observation. Forward only.
pub open spec fn paid(
    row: CorrelationModel,
    amount_matched: bool,
    payment_intent: Option<Seq<char>>,
    paid_at: int,
) -> CorrelationModel {
    if row.state == CorrelationState::Created {
        CorrelationModel {
            state: CorrelationState::Paid,
            amount_matched,
            payment_intent: match payment_intent {
                Some(reference) => Some(reference),
                None => row.payment_intent,
            },
            paid_at: Some(paid_at),
            ..row
        }
    } else {
        row
    }
}

/// The row after a promotion. Forward only.
pub open spec fn confirmed(row: CorrelationModel, confirmed_at: int) -> CorrelationModel {
    if row.state == CorrelationState::Paid {
        CorrelationModel {
            state: CorrelationState::Confirmed,
            confirmed_at: Some(confirmed_at),
            ..row
        }
    } else {
        row
    }
}

/// The row after a verified reversal.
pub open spec fn reversed(row: CorrelationModel) -> CorrelationModel {
    if row.state == CorrelationState::Created || row.state == CorrelationState::Paid {
        CorrelationModel { state: CorrelationState::Reversed, ..row }
    } else {
        row
    }
}

/// Whether the slow poll still watches the row.
pub open spec fn is_open(row: CorrelationModel) -> bool {
    &&& row.state == CorrelationState::Created || row.state == CorrelationState::Paid
    &&& row.session_id is Some
}

impl Correlation {
    /// The row that a new correlation starts as.
    pub fn open(new: NewCorrelation) -> (row: Correlation)
        ensures
            row@ == opened(new@),
    {
        Correlation {
            creator: new.creator,
            bundle_id: new.bundle_id,
            lock_resource: new.lock_resource,
            reader: new.reader,
            asset: new.asset,
            amount_minor: new.amount_minor,
            state: CorrelationState::Created,
            processor: None,
            session_id: None,
            checkout_url: None,
            checkout_expires_at: None,
            return_origin: None,
            session_attempt: 0,
            payment_intent: None,
            amount_matched: false,
            paid_at: None,
            confirmed_at: None,
        }
    }

    /// Whether the row carries the identity.
    pub fn is_named(&self, creator: &str, bundle_id: &str) -> (named: bool)
        ensures
            named == (self@.creator == creator@ && self@.bundle_id == bundle_id@),
    {
        text::same_text(&self.creator, creator) && text::same_text(&self.bundle_id, bundle_id)
    }

    /// What a repeated insertion of this row's identity amounts to.
    pub fn replay(&self, new: &NewCorrelation) -> (outcome: InsertOutcome)
        requires
            self@.creator == new@.creator,
            self@.bundle_id == new@.bundle_id,
        ensures
            outcome == (if terms(self@) == new@ {
                InsertOutcome::ExactReplay
            } else {
                InsertOutcome::Conflict
            }),
    {
        if text::same_text(&self.lock_resource, &new.lock_resource) && text::same_text(
            &self.reader,
            &new.reader,
        ) && text::same_text(&self.asset, &new.asset) && self.amount_minor == new.amount_minor {
            InsertOutcome::ExactReplay
        } else {
            InsertOutcome::Conflict
        }
    }

    /// Whether a processor may hold a session of the row.
    fn takes_processor(&self, processor: &str) -> (fits: bool)
        ensures
            fits == processor_fits(self@, processor@),
    {
        match &self.processor {
            Some(bound) => text::same_text(bound, processor),
            None => self.session_id.is_none() || text::same_text(processor, "stripe"),
        }
    }

    /// Records a session unless the row is bound to another processor or to
    /// another return origin.
    pub fn set_session(&mut self, session: SessionRecord) -> (persisted: bool)
        ensures
            persisted == session_fits(old(self)@, session@),
            final(self)@ == (if persisted {
                with_session(old(self)@, session@)
            } else {
                old(self)@
            }),
    {
        if !self.takes_processor(session.processor) {
            return false;
        }
        if self.return_origin.is_some() && !text::same_text_opt(
            &self.return_origin,
            &session.return_origin,
        ) {
            return false;
        }
        self.processor = Some(session.processor.to_owned());
        self.session_id = Some(session.session_id);
        self.checkout_url = Some(session.checkout_url);
        self.checkout_expires_at = Some(session.checkout_expires_at);
        self.session_attempt = session.session_attempt;
        if session.return_origin.is_some() {
            self.return_origin = session.return_origin;
        }
        true
    }

    /// Records a verified-paid observation. A row past `created` stays as it
    /// is.
    pub fn mark_paid(
        &mut self,
        amount_matched: bool,
        payment_intent: Option<String>,
        paid_at: Timestamp,
    )
        ensures
            final(self)@ == paid(
                old(self)@,
                amount_matched,
                text::text_opt(payment_intent),
                paid_at@,
            ),
    {
        if self.state == CorrelationState::Created {
            self.state = CorrelationState::Paid;
            self.amount_matched = amount_matched;
            if payment_intent.is_some() {
                self.payment_intent = payment_intent;
            }
            self.paid_at = Some(paid_at);
        }
    }

    /// Promotes a paid row. Any other row stays as it is.
    pub fn mark_confirmed(&mut self, confirmed_at: Timestamp)
        ensures
            final(self)@ == confirmed(old(self)@, confirmed_at@),
    {
        if self.state == CorrelationState::Paid {
            self.state = CorrelationState::Confirmed;
            self.confirmed_at = Some(confirmed_at);
        }
    }

    /// Marks a created or paid row reversed. Never touches a confirmed row.
    pub fn mark_reversed(&mut self)
        ensures
            final(self)@ == reversed(old(self)@),
    {
        if self.state == CorrelationState::Created || self.state == CorrelationState::Paid {
            self.state = CorrelationState::Reversed;
        }
    }

    /// Whether the slow poll still watches the row.
    pub fn needs_observation(&self) -> (open: bool)
        ensures
            open == is_open(self@),
    {
        (self.state == CorrelationState::Created || self.state == CorrelationState::Paid)
            && self.session_id.is_some()
    }

    /// A copy of the row.
    pub fn copy(&self) -> (row: Correlation)
        ensures
            row == *self,
    {
        Correlation {
            creator: self.creator.clone(),
            bundle_id: self.bundle_id.clone(),
            lock_resource: self.lock_resource.clone(),
            reader: self.reader.clone(),
            asset: self.asset.clone(),
            amount_minor: self.amount_minor,
            state: self.state,
            processor: text::copy_text_opt(&self.processor),
            session_id: text::copy_text_opt(&self.session_id),
            checkout_url: text::copy_text_opt(&self.checkout_url),
            checkout_expires_at: self.checkout_expires_at,
            return_origin: text::copy_text_opt(&self.return_origin),
            session_attempt: self.session_attempt,
            payment_intent: text::copy_text_opt(&self.payment_intent),
            amount_matched: self.amount_matched,
            paid_at: self.paid_at,
            confirmed_at: self.confirmed_at,
        }
    }
}

} // verus!
