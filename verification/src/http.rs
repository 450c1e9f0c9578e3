//! The gateway's state, and the small rules that its endpoints share.

use crate::auth;
use crate::auth::Headers;
use crate::auth::TrustedKey;
use crate::clock;
use crate::clock::Span;
use crate::clock::Timestamp;
use crate::error::ApiError;
use crate::json;
use crate::json::Json;
use crate::json::JsonModel;
use crate::store::Correlation;
use crate::store::CorrelationModel;
use crate::text;
use crate::verification;
use crate::verification::ProcessorKind;
use crate::verification::Processors;
use crate::wire::CheckoutSessionResponse;
use crate::wire::CheckoutSessionResponseModel;
use vstd::prelude::*;

verus! {

/// The largest request body that is read.
pub const MAX_BODY_BYTES: usize = 65_536;

/// How far a webhook's timestamp may lie from the current time.
pub const WEBHOOK_TOLERANCE_SECONDS: u64 = 300;

/// A checkout session this close to expiry is replaced rather than returned.
pub const SESSION_EXPIRY_SLACK_SECONDS: i64 = 60;

/// PayPal's create-order answer carries no expiry; orders are approvable for
/// roughly three hours.
pub const PAYPAL_ORDER_TTL_SECONDS: i64 = 10_800;

pub const PRODUCT_NAME: &'static str = "Marketplace listing (Locks entitlement)";

pub struct AppState {
    pub trusted_key: TrustedKey,
    pub processors: Processors,
    /// Default for unbound checkout requests that name no processor.
    pub default_processor: ProcessorKind,
    pub settlement_delay: Span,
    pub synthesized_confirmations: u32,
    pub allowed_assets: Vec<String>,
    /// Fallback redirect targets, used when no return origin is bound to the
    /// correlation.
    pub checkout_success_url: String,
    pub checkout_cancel_url: String,
    /// Exact `https://` origins a checkout request may name.
    pub buyer_return_origins: Vec<String>,
}

/// The bare key of an app key, which may carry the `pubky` prefix.
pub open spec fn bare_key(key: Seq<char>) -> Seq<char> {
    text::without_prefix(key, "pubky"@)
}

/// Strips the optional `pubky` app-key prefix, leaving the bare key.
pub fn normalized_z32(key: &str) -> (bare: String)
    ensures
        bare@ == bare_key(key@),
{
    text::strip_front(key, "pubky")
}

/// The text of the signature header.
pub fn signature_string(headers: &Headers) -> (signature: Result<String, ApiError>)
    ensures
        match signature {
            Ok(signature) => auth::header_text(headers@, auth::SIGNATURE_HEADER@) == Some(
                signature@,
            ),
            Err(error) => auth::header_text(headers@, auth::SIGNATURE_HEADER@) is None && error
                == ApiError::InvalidSignature,
        },
{
    match headers.text(auth::SIGNATURE_HEADER) {
        Some(signature) => Ok(signature),
        None => Err(ApiError::InvalidSignature),
    }
}

/// The redirect targets of a session: derived from the bound return origin, or
/// the fallback targets.
pub open spec fn redirect_targets(app: AppState, return_origin: Option<Seq<char>>) -> (
    Seq<char>,
    Seq<char>,
) {
    match return_origin {
        Some(origin) => (
            origin + "/marketplace?checkout=return"@,
            origin + "/marketplace?checkout=cancel"@,
        ),
        None => (app.checkout_success_url@, app.checkout_cancel_url@),
    }
}

/// The redirect targets a session is minted with.
pub fn return_urls(app: &AppState, return_origin: &Option<String>) -> (urls: (String, String))
    ensures
        (urls.0@, urls.1@) == redirect_targets(*app, text::text_opt(*return_origin)),
{
    match return_origin {
        Some(origin) => (
            text::joined(origin, "/marketplace?checkout=return"),
            text::joined(origin, "/marketplace?checkout=cancel"),
        ),
        None => (app.checkout_success_url.clone(), app.checkout_cancel_url.clone()),
    }
}

/// The session of a bound row, while it does not expire within the slack.
pub open spec fn live_session(row: CorrelationModel, now: int) -> Option<
    CheckoutSessionResponseModel,
> {
    match (verification::bound(row), row.checkout_url, row.checkout_expires_at) {
        (Some(kind), Some(checkout_url), Some(expires_at)) => if expires_at > clock::unix_seconds(
            now,
        ) + SESSION_EXPIRY_SLACK_SECONDS {
            Some(
                CheckoutSessionResponseModel {
                    checkout_url,
                    processor: verification::kind_text(kind),
                    expires_at,
                },
            )
        } else {
            None
        },
        _ => None,
    }
}

/// The session of a bound row, while it does not expire within the slack.
pub fn find_live_session(correlation: &Correlation, now: Timestamp) -> (session: Option<
    CheckoutSessionResponse,
>)
    ensures
        match session {
            Some(session) => live_session(correlation@, now@) == Some(session@),
            None => live_session(correlation@, now@) is None,
        },
{
    match (
        verification::bound_processor(correlation),
        &correlation.checkout_url,
        correlation.checkout_expires_at,
    ) {
        (Some(kind), Some(url), Some(expires_at)) => {
            if expires_at > now.unix() + SESSION_EXPIRY_SLACK_SECONDS {
                Some(
                    CheckoutSessionResponse {
                        checkout_url: url.clone(),
                        processor: kind.as_str(),
                        expires_at,
                    },
                )
            } else {
                None
            }
        },
        _ => None,
    }
}

/// Capture statuses that corroborate a reversal webhook.
pub open spec fn is_reversal(status: Option<Seq<char>>) -> bool {
    ||| status == Some("REFUNDED"@)
    ||| status == Some("PARTIALLY_REFUNDED"@)
    ||| status == Some("REVERSED"@)
    ||| status == Some("DECLINED"@)
    ||| status == Some("FAILED"@)
}

/// Whether a capture status corroborates a reversal webhook.
pub fn is_reversal_capture_status(status: &Option<String>) -> (reversal: bool)
    ensures
        reversal == is_reversal(text::text_opt(*status)),
{
    match status {
        Some(status) => text::same_text(status, "REFUNDED") || text::same_text(
            status,
            "PARTIALLY_REFUNDED",
        ) || text::same_text(status, "REVERSED") || text::same_text(status, "DECLINED")
            || text::same_text(status, "FAILED"),
        None => false,
    }
}

/// The capture id that an `up` link names.
pub open spec fn linked_capture(link: JsonModel) -> Option<Seq<char>> {
    if json::member_text(link, "rel"@) == Some("up"@) {
        match json::member_text(link, "href"@) {
            Some(href) => match text::after_last(href, "/captures/"@) {
                Some(id) => if id.len() > 0 {
                    Some(id)
                } else {
                    None
                },
                None => None,
            },
            None => None,
        }
    } else {
        None
    }
}

/// The first capture id that an `up` link names.
pub open spec fn first_linked_capture(links: Seq<JsonModel>) -> Option<Seq<char>>
    decreases links.len(),
{
    if links.len() == 0 {
        None
    } else {
        match linked_capture(links[0]) {
            Some(id) => Some(id),
            None => first_linked_capture(links.skip(1)),
        }
    }
}

/// The capture that a reversal event refers to: the target of its `up` link,
/// or its own id.
pub open spec fn reversed_capture(resource: JsonModel) -> Option<Seq<char>> {
    let linked = match json::member(resource, "links"@) {
        Some(JsonModel::List(links)) => first_linked_capture(links),
        _ => None,
    };
    match linked {
        Some(id) => Some(id),
        None => json::member_text(resource, "id"@),
    }
}

fn find_linked_capture(link: &Json) -> (id: Option<String>)
    ensures
        text::text_opt(id) == linked_capture(link@),
{
    match link.get_text("rel") {
        Some(rel) => {
            if !text::same_text(rel, "up") {
                return None;
            }
        },
        None => return None,
    }
    match link.get_text("href") {
        Some(href) => match text::tail_after_last(href, "/captures/") {
            Some(id) => {
                if id.as_str().unicode_len() > 0 {
                    Some(id)
                } else {
                    None
                }
            },
            None => None,
        },
        None => None,
    }
}

fn find_first_linked_capture(links: &Vec<Json>) -> (id: Option<String>)
    ensures
        text::text_opt(id) == first_linked_capture(json::trees(links@)),
{
    let ghost all = json::trees(links@);
    let mut i: usize = 0;
    assert(all.skip(0) =~= all);
    while i < links.len()
        invariant
            i <= links@.len(),
            all == json::trees(links@),
            first_linked_capture(all) == first_linked_capture(all.skip(i as int)),
        decreases links.len() - i,
    {
        assert(all.skip(i as int)[0] == links@[i as int]@);
        let id: Option<String> = find_linked_capture(&links[i]);
        if id.is_some() {
            return id;
        }
        assert(all.skip(i as int).skip(1) =~= all.skip(i as int + 1));
        i = i + 1;
    }
    None
}

/// Extracts the capture id that a reversal event refers to.
pub fn reversal_capture_id(resource: &Json) -> (id: Option<String>)
    ensures
        text::text_opt(id) == reversed_capture(resource@),
{
    if let Some(Json::List(links)) = resource.get("links") {
        proof {
            let list = Json::List(*links);
            assert(list@->List_0 =~= json::trees(links@));
            assert(json::member(resource@, "links"@) == Some(
                JsonModel::List(json::trees(links@)),
            ));
        }
        let id: Option<String> = find_first_linked_capture(links);
        if id.is_some() {
            return id;
        }
    }
    match resource.get_text("id") {
        Some(id) => Some(id.clone()),
        None => None,
    }
}

/// What the health endpoint reports.
#[derive(Clone, Debug)]
pub struct Health {
    pub database: bool,
    pub stripe_enabled: bool,
    pub stripe_webhook_configured: bool,
    pub paypal_enabled: bool,
    pub paypal_webhook_configured: bool,
    pub default_processor: &'static str,
}

impl Health {
    /// `ok`, or `degraded` without a working database.
    pub fn status(&self) -> (status: &'static str)
        ensures
            status@ == (if self.database {
                "ok"@
            } else {
                "degraded"@
            }),
    {
        if self.database {
            "ok"
        } else {
            "degraded"
        }
    }

    /// The status code of the answer.
    pub fn status_code(&self) -> (code: u16)
        ensures
            code == (if self.database {
                200u16
            } else {
                503u16
            }),
    {
        if self.database {
            200
        } else {
            503
        }
    }
}

impl AppState {
    /// The health report, given whether the database answers.
    pub fn health(&self, database: bool) -> (health: Health)
        ensures
            health.database == database,
            health.stripe_enabled == (self.processors.stripe is Some),
            health.stripe_webhook_configured == (self.processors.stripe matches Some(stripe)
                && stripe.webhook() is Some),
            health.paypal_enabled == (self.processors.paypal is Some),
            health.paypal_webhook_configured == (self.processors.paypal matches Some(paypal)
                && paypal.webhook() is Some),
            health.default_processor@ == verification::kind_text(self.default_processor),
    {
        let stripe_webhook_configured: bool = match &self.processors.stripe {
            Some(stripe) => stripe.webhook_secret().is_some(),
            None => false,
        };
        let paypal_webhook_configured: bool = match &self.processors.paypal {
            Some(paypal) => paypal.webhook_id().is_some(),
            None => false,
        };
        Health {
            database,
            stripe_enabled: self.processors.stripe.is_some(),
            stripe_webhook_configured,
            paypal_enabled: self.processors.paypal.is_some(),
            paypal_webhook_configured,
            default_processor: self.default_processor.as_str(),
        }
    }
}

} // verus!
