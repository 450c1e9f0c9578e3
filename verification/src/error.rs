//! The error envelope of the HTTP surface.

use vstd::prelude::*;

verus! {

#[derive(Clone, Copy, Debug, PartialEq, Eq, Structural)]
pub enum ApiError {
    InvalidRequest,
    InvalidSignature,
    /// The named return origin is not an exact allowlisted origin.
    InvalidReturnOrigin,
    RateLimited,
    NotFound,
    LockNotFound,
    InvoiceConflict,
    /// Fiat processing unavailable: no processor configured, processor down,
    /// or persistence failure.
    Unavailable,
}

impl View for ApiError {
    type V = ApiError;

    open spec fn view(&self) -> ApiError {
        *self
    }
}

/// The status code, error code and message that an error is answered with.
pub open spec fn envelope(error: ApiError) -> (u16, Seq<char>, Seq<char>) {
    match error {
        ApiError::InvalidRequest => (400, "invalid_request"@, "request is invalid"@),
        ApiError::InvalidSignature => (
            401,
            "invalid_signature"@,
            "request authentication failed"@,
        ),
        ApiError::InvalidReturnOrigin => (
            400,
            "invalid_return_origin"@,
            "return origin is not allowed"@,
        ),
        ApiError::RateLimited => (429, "rate_limited"@, "request rate limit exceeded"@),
        ApiError::NotFound => (404, "not_found"@, "requested resource was not found"@),
        ApiError::LockNotFound => (404, "lock_not_found"@, "lock resource was not found"@),
        ApiError::InvoiceConflict => (
            409,
            "invoice_conflict"@,
            "invoice binding conflicts with an existing invoice"@,
        ),
        ApiError::Unavailable => (
            503,
            "fiat_unavailable"@,
            "fiat payment processing is unavailable"@,
        ),
    }
}

impl ApiError {
    /// The status code, error code and message of the error envelope.
    pub fn details(self) -> (parts: (u16, &'static str, &'static str))
        ensures
            (parts.0, parts.1@, parts.2@) == envelope(self),
    {
        match self {
            ApiError::InvalidRequest => (400, "invalid_request", "request is invalid"),
            ApiError::InvalidSignature => (
                401,
                "invalid_signature",
                "request authentication failed",
            ),
            ApiError::InvalidReturnOrigin => (
                400,
                "invalid_return_origin",
                "return origin is not allowed",
            ),
            ApiError::RateLimited => (429, "rate_limited", "request rate limit exceeded"),
            ApiError::NotFound => (404, "not_found", "requested resource was not found"),
            ApiError::LockNotFound => (404, "lock_not_found", "lock resource was not found"),
            ApiError::InvoiceConflict => (
                409,
                "invoice_conflict",
                "invoice binding conflicts with an existing invoice",
            ),
            ApiError::Unavailable => (
                503,
                "fiat_unavailable",
                "fiat payment processing is unavailable",
            ),
        }
    }
}

} // verus!
