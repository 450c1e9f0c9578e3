//! The signed wire contract spoken by the Lock Server, and the buyer-facing
//! checkout surface.

use crate::decimal;
use crate::error::ApiError;
use crate::text;
use vstd::prelude::*;

verus! {

/// `POST /invoices` body sent by the Lock Server on proof-bundle submission.
#[derive(Clone, Debug, PartialEq, Eq)]
pub struct InvoiceRequest {
    pub bundle_id: String,
    pub lock_resource: String,
    pub reader: String,
}

pub struct InvoiceRequestModel {
    pub bundle_id: Seq<char>,
    pub lock_resource: Seq<char>,
    pub reader: Seq<char>,
}

impl View for InvoiceRequest {
    type V = InvoiceRequestModel;

    open spec fn view(&self) -> InvoiceRequestModel {
        InvoiceRequestModel {
            bundle_id: self.bundle_id@,
            lock_resource: self.lock_resource@,
            reader: self.reader@,
        }
    }
}

/// `POST /transactions/status` body polled by the Lock Server worker.
#[derive(Clone, Debug, PartialEq, Eq)]
pub struct StatusRequest {
    pub creator: String,
    pub bundle_id: String,
}

pub struct StatusRequestModel {
    pub creator: Seq<char>,
    pub bundle_id: Seq<char>,
}

impl View for StatusRequest {
    type V = StatusRequestModel;

    open spec fn view(&self) -> StatusRequestModel {
        StatusRequestModel { creator: self.creator@, bundle_id: self.bundle_id@ }
    }
}

#[derive(Clone, Copy, Debug, PartialEq, Eq, Structural)]
pub enum StatusKind {
    Undetected,
    Detected,
    Confirmed,
}

/// The status that the Lock Server's payment verifier consumes.
#[derive(Clone, Copy, Debug, PartialEq, Eq, Structural)]
pub struct TransactionStatus {
    pub status: StatusKind,
    pub confirmations: u32,
    pub amount_matched: bool,
}

impl StatusKind {
    /// The name of the kind on the wire.
    pub open spec fn name(self) -> Seq<char> {
        match self {
            StatusKind::Undetected => "undetected"@,
            StatusKind::Detected => "detected"@,
            StatusKind::Confirmed => "confirmed"@,
        }
    }

    /// The name of the kind on the wire.
    pub fn as_str(self) -> (name: &'static str)
        ensures
            name@ == self.name(),
    {
        match self {
            StatusKind::Undetected => "undetected",
            StatusKind::Detected => "detected",
            StatusKind::Confirmed => "confirmed",
        }
    }
}

impl TransactionStatus {
    /// The JSON object that the Lock Server reads.
    pub open spec fn wire_text(self) -> Seq<char> {
        "{\"status\":\""@ + self.status.name() + "\",\"confirmations\":"@ + decimal::decimal(
            self.confirmations as int,
        ) + (if self.amount_matched {
            ",\"amount_matched\":true}"@
        } else {
            ",\"amount_matched\":false}"@
        })
    }

    /// Writes the JSON object that the Lock Server reads.
    pub fn rendered(self) -> (body: String)
        ensures
            body@ == self.wire_text(),
    {
        let mut body: String = text::joined("{\"status\":\"", self.status.as_str());
        body.append("\",\"confirmations\":");
        body.append(decimal::decimal_u64(self.confirmations as u64).as_str());
        if self.amount_matched {
            body.append(",\"amount_matched\":true}");
        } else {
            body.append(",\"amount_matched\":false}");
        }
        body
    }
}

/// Buyer-facing `POST /checkout-sessions` request. The bundle id is bearer
/// material.
#[derive(Clone, Debug)]
pub struct CheckoutSessionRequest {
    pub creator: String,
    pub bundle_id: String,
    /// Processor choice (`stripe` | `paypal`), honored only while the
    /// correlation is not yet bound to a processor.
    pub processor: Option<String>,
    /// Exact `https://` origin the buyer returns to after checkout.
    pub return_origin: Option<String>,
}

#[derive(Clone, Debug)]
pub struct CheckoutSessionResponse {
    pub checkout_url: String,
    pub processor: &'static str,
    /// Unix seconds when the processor session expires.
    pub expires_at: i64,
}

pub struct CheckoutSessionResponseModel {
    pub checkout_url: Seq<char>,
    pub processor: Seq<char>,
    pub expires_at: int,
}

impl View for CheckoutSessionResponse {
    type V = CheckoutSessionResponseModel;

    open spec fn view(&self) -> CheckoutSessionResponseModel {
        CheckoutSessionResponseModel {
            checkout_url: self.checkout_url@,
            processor: self.processor@,
            expires_at: self.expires_at as int,
        }
    }
}

pub const MAX_ID_LENGTH: usize = 128;

pub const MAX_RESOURCE_LENGTH: usize = 512;

/// The creator key and the path of an addressed lock resource.
pub open spec fn lock_parts(resource: Seq<char>) -> Option<(Seq<char>, Seq<char>)> {
    if resource.len() == 0 || text::byte_len(resource) > MAX_RESOURCE_LENGTH {
        None
    } else {
        match text::split_once(resource, '/') {
            Some((creator, rest)) => {
                let path = seq!['/'] + rest;
                if creator.len() == 0 || !text::has_prefix(path, "/pub/"@) {
                    None
                } else {
                    Some((creator, path))
                }
            },
            None => None,
        }
    }
}

/// Splits an addressed lock resource (`pubky<z32>/pub/locks.app/<id>.json`)
/// into creator app key and path. Light validation only: the gateway must not
/// be stricter than the services behind it.
pub fn parse_lock_resource(lock_resource: &str) -> (parts: Result<(String, String), ApiError>)
    ensures
        match parts {
            Ok((creator, path)) => lock_parts(lock_resource@) == Some((creator@, path@)),
            Err(error) => lock_parts(lock_resource@) is None && error == ApiError::InvalidRequest,
        },
{
    if lock_resource.unicode_len() == 0 || text::bytes_in(lock_resource) > MAX_RESOURCE_LENGTH {
        return Err(ApiError::InvalidRequest);
    }
    match text::split_at_first(lock_resource, '/') {
        Some((creator, rest)) => {
            let mut path: String = String::new();
            path.push('/');
            path.append(&rest);
            assert(path@ =~= seq!['/'] + rest@);
            if creator.unicode_len() == 0 || !text::starts_with(&path, "/pub/") {
                return Err(ApiError::InvalidRequest);
            }
            Ok((creator, path))
        },
        None => Err(ApiError::InvalidRequest),
    }
}

/// The two parts of a lock resource, put together, are the resource; the
/// creator is never empty and holds no slash, and the path lies under `/pub/`.
pub proof fn lock_parts_rejoin(resource: Seq<char>)
    ensures
        lock_parts(resource) matches Some((creator, path)) ==> {
            &&& resource == creator + path
            &&& creator.len() > 0
            &&& !creator.contains('/')
            &&& text::has_prefix(path, "/pub/"@)
        },
{
    text::lemma_split_once(resource, '/');
    match text::split_once(resource, '/') {
        Some((creator, rest)) => {
            assert(creator.push('/') + rest =~= creator + (seq!['/'] + rest));
        },
        None => {},
    }
}

/// Whether a bundle id is acceptable: one to `MAX_ID_LENGTH` ASCII letters and
/// digits.
pub open spec fn valid_id(value: Seq<char>) -> bool {
    &&& value.len() > 0
    &&& text::byte_len(value) <= MAX_ID_LENGTH
    &&& forall|i: int| 0 <= i < value.len() ==> text::is_alphanumeric(#[trigger] value[i])
}

pub fn validate_id(value: &str) -> (verdict: Result<(), ApiError>)
    ensures
        verdict is Ok <==> valid_id(value@),
        verdict matches Err(error) ==> error == ApiError::InvalidRequest,
{
    if value.unicode_len() == 0 || text::bytes_in(value) > MAX_ID_LENGTH
        || !text::all_alphanumeric(value) {
        return Err(ApiError::InvalidRequest);
    }
    Ok(())
}

} // verus!
