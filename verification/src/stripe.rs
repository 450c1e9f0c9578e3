//! Stripe processor plugin: the requests it makes, the signature check on its
//! webhooks, and the keys that tie a session to its verification task.

use crate::api_call;
use crate::api_call::ApiCall;
use crate::api_call::ApiCallModel;
use crate::api_call::Credentials;
use crate::api_call::CredentialsModel;
use crate::api_call::Method;
use crate::api_call::Payload;
use crate::api_call::PayloadModel;
use crate::clock::Span;
use crate::crypto;
use crate::decimal;
use crate::text;
use crate::web_url;
use crate::web_url::WebUrl;
use vstd::prelude::*;
use vstd::utf8::*;

verus! {

#[derive(Clone, Debug)]
pub enum StripeError {
    /// The request failed on its way.
    Http(String),
    /// The API answered with an error status.
    Api { status: u16, body: String },
    /// The answer was not the expected shape.
    Shape(String),
}

#[derive(Clone, Copy, Debug, PartialEq, Eq, Structural)]
pub enum WebhookError {
    MalformedHeader,
    BadSignature,
    StaleTimestamp,
}

/// The fields of a checkout session that the verifier consumes.
#[derive(Clone, Debug)]
pub struct CheckoutSession {
    pub id: String,
    /// Hosted checkout URL; present while the session is open.
    pub url: Option<String>,
    /// `paid` | `unpaid` | `no_payment_required`: the payment fact.
    pub payment_status: Option<String>,
    pub amount_total: Option<i64>,
    pub currency: Option<String>,
    pub expires_at: Option<i64>,
    pub payment_intent: Option<String>,
}

#[derive(Clone, Debug)]
pub struct Charge {
    pub refunded: bool,
    pub disputed: bool,
    pub payment_intent: Option<String>,
}

pub struct StripeProcessor {
    api_base: WebUrl,
    secret_key: String,
    webhook_secret: Option<String>,
}

impl StripeProcessor {
    #[verifier::type_invariant]
    spec fn base_fits(self) -> bool {
        self.api_base@.len() <= web_url::TEXT_LIMIT
    }

    /// The base URL of the API.
    pub closed spec fn base(self) -> Seq<char> {
        self.api_base@
    }

    /// The key that requests authenticate with.
    pub closed spec fn secret(self) -> Seq<char> {
        self.secret_key@
    }

    /// The secret that webhooks are signed with.
    pub closed spec fn webhook(self) -> Option<Seq<char>> {
        text::text_opt(self.webhook_secret)
    }

    pub fn new(api_base: WebUrl, secret_key: String, webhook_secret: Option<String>) -> (stripe:
        Self)
        requires
            api_base@.len() <= web_url::TEXT_LIMIT,
        ensures
            stripe.base() == api_base@,
            stripe.secret() == secret_key@,
            stripe.webhook() == text::text_opt(webhook_secret),
    {
        StripeProcessor { api_base, secret_key, webhook_secret }
    }

    /// The secret that webhooks are signed with, if one is configured.
    pub fn webhook_secret(&self) -> (secret: &Option<String>)
        ensures
            text::text_opt(*secret) == self.webhook(),
    {
        &self.webhook_secret
    }

    fn endpoint(&self, path: &str) -> (url: String)
        requires
            path@.len() <= web_url::TEXT_LIMIT,
        ensures
            url@ == web_url::url_with_path(self.base(), path@),
    {
        proof {
            use_type_invariant(self);
        }
        self.api_base.with_path(path)
    }

    /// A read of one object.
    pub open spec fn read_call(self, prefix: Seq<char>, id: Seq<char>) -> ApiCallModel {
        ApiCallModel {
            method: Method::Get,
            url: web_url::url_with_path(self.base(), prefix + id),
            credentials: CredentialsModel::Bearer(self.secret()),
            headers: Seq::empty(),
            payload: PayloadModel::Empty,
        }
    }

    fn read(&self, prefix: &str, id: &str) -> (call: ApiCall)
        requires
            prefix@.len() + id@.len() <= web_url::TEXT_LIMIT,
        ensures
            call@ == self.read_call(prefix@, id@),
    {
        let headers: Vec<(String, String)> = Vec::new();
        assert(api_call::pairs(headers@) =~= Seq::empty());
        ApiCall {
            method: Method::Get,
            url: self.endpoint(&text::joined(prefix, id)),
            credentials: Credentials::Bearer(self.secret_key.clone()),
            headers,
            payload: Payload::Empty,
        }
    }

    /// The form that a checkout session is created with.
    pub open spec fn checkout_form(
        reference: Seq<char>,
        amount_minor: int,
        currency_lower: Seq<char>,
        product_name: Seq<char>,
        success_url: Seq<char>,
        cancel_url: Seq<char>,
    ) -> Seq<(Seq<char>, Seq<char>)> {
        seq![
            ("mode"@, "payment"@),
            ("client_reference_id"@, reference),
            ("line_items[0][price_data][currency]"@, currency_lower),
            ("line_items[0][price_data][unit_amount]"@, decimal::decimal(amount_minor)),
            ("line_items[0][price_data][product_data][name]"@, product_name),
            ("line_items[0][quantity]"@, "1"@),
            ("success_url"@, success_url),
            ("cancel_url"@, cancel_url),
        ]
    }

    /// Creates a hosted checkout. The idempotency key makes a replay return
    /// the session that exists.
    pub fn create_checkout_session(
        &self,
        reference: &str,
        idempotency_key: &str,
        amount_minor: i64,
        currency_lower: &str,
        product_name: &str,
        success_url: &str,
        cancel_url: &str,
    ) -> (call: ApiCall)
        ensures
            call@ == (ApiCallModel {
                method: Method::Post,
                url: web_url::url_with_path(self.base(), "/v1/checkout/sessions"@),
                credentials: CredentialsModel::Bearer(self.secret()),
                headers: seq![("Idempotency-Key"@, idempotency_key@)],
                payload: PayloadModel::Form(
                    Self::checkout_form(
                        reference@,
                        amount_minor as int,
                        currency_lower@,
                        product_name@,
                        success_url@,
                        cancel_url@,
                    ),
                ),
            }),
    {
        proof {
            reveal_strlit("/v1/checkout/sessions");
        }
        let mut form: Vec<(String, String)> = Vec::new();
        assert(api_call::pairs(form@) =~= Seq::empty());
        api_call::push_pair(&mut form, "mode", "payment");
        api_call::push_pair(&mut form, "client_reference_id", reference);
        api_call::push_pair(&mut form, "line_items[0][price_data][currency]", currency_lower);
        api_call::push_pair(
            &mut form,
            "line_items[0][price_data][unit_amount]",
            &decimal::decimal_i64(amount_minor),
        );
        api_call::push_pair(
            &mut form,
            "line_items[0][price_data][product_data][name]",
            product_name,
        );
        api_call::push_pair(&mut form, "line_items[0][quantity]", "1");
        api_call::push_pair(&mut form, "success_url", success_url);
        api_call::push_pair(&mut form, "cancel_url", cancel_url);
        let mut headers: Vec<(String, String)> = Vec::new();
        assert(api_call::pairs(headers@) =~= Seq::empty());
        api_call::push_pair(&mut headers, "Idempotency-Key", idempotency_key);
        proof {
            assert(api_call::pairs(form@) =~= Self::checkout_form(
                reference@,
                amount_minor as int,
                currency_lower@,
                product_name@,
                success_url@,
                cancel_url@,
            ));
            assert(api_call::pairs(headers@) =~= seq![("Idempotency-Key"@, idempotency_key@)]);
        }
        ApiCall {
            method: Method::Post,
            url: self.endpoint("/v1/checkout/sessions"),
            credentials: Credentials::Bearer(self.secret_key.clone()),
            headers,
            payload: Payload::Form(form),
        }
    }

    /// Reads a checkout session.
    pub fn retrieve_session(&self, session_id: &str) -> (call: ApiCall)
        requires
            session_id@.len() <= web_url::TEXT_LIMIT - 64,
        ensures
            call@ == self.read_call("/v1/checkout/sessions/"@, session_id@),
    {
        proof {
            reveal_strlit("/v1/checkout/sessions/");
        }
        self.read("/v1/checkout/sessions/", session_id)
    }

    /// Reads a charge.
    pub fn retrieve_charge(&self, charge_id: &str) -> (call: ApiCall)
        requires
            charge_id@.len() <= web_url::TEXT_LIMIT - 64,
        ensures
            call@ == self.read_call("/v1/charges/"@, charge_id@),
    {
        proof {
            reveal_strlit("/v1/charges/");
        }
        self.read("/v1/charges/", charge_id)
    }

    /// The body of an answer to be read, unless its status is an error.
    pub fn parse(status: u16, body: String) -> (answer: Result<String, StripeError>)
        ensures
            match answer {
                Ok(answer) => api_call::is_success(status) && answer@ == body@,
                Err(StripeError::Api { status: code, body: kept }) => {
                    &&& !api_call::is_success(status)
                    &&& code == status
                    &&& kept@ == api_call::error_excerpt(body@)
                },
                Err(_) => false,
            },
    {
        if status >= 200 && status < 300 {
            return Ok(body);
        }
        Err(StripeError::Api { status, body: api_call::excerpt(body) })
    }

    /// Verifies a `Stripe-Signature` header over the raw payload.
    pub fn verify_webhook(
        webhook_secret: &str,
        signature_header: &str,
        payload: &[u8],
        now_unix: i64,
        tolerance: Span,
    ) -> (verdict: Result<(), WebhookError>)
        ensures
            verdict == webhook_verdict(
                webhook_secret@,
                signature_header@,
                payload@,
                now_unix as int,
                tolerance@,
            ),
    {
        let signed: SignedHeader = match read_signature_header(signature_header) {
            Ok(signed) => signed,
            Err(error) => return Err(error),
        };
        if !fresh(signed.timestamp, now_unix, tolerance) {
            return Err(WebhookError::StaleTimestamp);
        }
        let message: Vec<u8> = signed_message(signed.timestamp, payload);
        let ghost candidates = text::texts(signed.candidates@);
        let mut verified: bool = false;
        let mut i: usize = 0;
        while i < signed.candidates.len() && !verified
            invariant
                i <= signed.candidates@.len(),
                candidates == text::texts(signed.candidates@),
                message@ == message_bytes(signed.timestamp as int, payload@),
                verified ==> any_verifies(
                    webhook_secret@,
                    candidates,
                    signed.timestamp as int,
                    payload@,
                ),
                !verified ==> forall|j: int|
                    0 <= j < i ==> !candidate_verifies(
                        webhook_secret@,
                        #[trigger] candidates[j],
                        signed.timestamp as int,
                        payload@,
                    ),
            decreases signed.candidates.len() - i,
        {
            assert(candidates[i as int] == signed.candidates@[i as int]@);
            verified = match crypto::hex_decode(&signed.candidates[i]) {
                Some(tag) => crypto::hmac_sha256_verifies(
                    webhook_secret.as_bytes(),
                    &message,
                    &tag,
                ),
                None => false,
            };
            i = i + 1;
        }
        judge_webhook(&signed, verified, now_unix, tolerance)
    }
}

/// What a signature header says: when it was signed, and the signatures it
/// offers.
pub struct SignedHeader {
    pub timestamp: i64,
    pub candidates: Vec<String>,
}

/// The last timestamp and all signatures of a header's parts, unless a
/// timestamp is no number.
pub open spec fn header_parts(parts: Seq<Seq<char>>) -> Option<(Option<int>, Seq<Seq<char>>)>
    decreases parts.len(),
{
    if parts.len() == 0 {
        Some((None, Seq::empty()))
    } else {
        match header_parts(parts.drop_last()) {
            Some((timestamp, candidates)) => match text::split_once(text::trim(parts.last()), '=') {
                Some((key, value)) => if key == "t"@ {
                    match decimal::signed_value(value) {
                        Some(seconds) => Some((Some(seconds), candidates)),
                        None => None,
                    }
                } else if key == "v1"@ {
                    Some((timestamp, candidates.push(value)))
                } else {
                    Some((timestamp, candidates))
                },
                None => Some((timestamp, candidates)),
            },
            None => None,
        }
    }
}

/// The timestamp and the signatures of a well-formed header: it has at least
/// one of each.
pub open spec fn signed_header(header: Seq<char>) -> Option<(int, Seq<Seq<char>>)> {
    match header_parts(text::split_all(header, ',')) {
        Some((Some(timestamp), candidates)) => if candidates.len() > 0 {
            Some((timestamp, candidates))
        } else {
            None
        },
        _ => None,
    }
}

/// The bytes that a webhook signature covers.
pub open spec fn message_bytes(timestamp: int, payload: Seq<u8>) -> Seq<u8> {
    encode_utf8(decimal::decimal(timestamp).push('.')) + payload
}

/// Whether one offered signature is the hexadecimal tag of the message.
pub open spec fn candidate_verifies(
    secret: Seq<char>,
    candidate: Seq<char>,
    timestamp: int,
    payload: Seq<u8>,
) -> bool {
    crypto::hex_bytes(candidate) == Some(
        crypto::hmac_sha256(encode_utf8(secret), message_bytes(timestamp, payload)),
    )
}

/// Whether one of the offered signatures verifies.
pub open spec fn any_verifies(
    secret: Seq<char>,
    candidates: Seq<Seq<char>>,
    timestamp: int,
    payload: Seq<u8>,
) -> bool {
    exists|i: int|
        0 <= i < candidates.len() && candidate_verifies(
            secret,
            #[trigger] candidates[i],
            timestamp,
            payload,
        )
}

/// Whether a timestamp lies within the tolerance of the current time.
pub open spec fn is_fresh(timestamp: int, now_unix: int, tolerance: int) -> bool {
    let distance = if now_unix >= timestamp {
        now_unix - timestamp
    } else {
        timestamp - now_unix
    };
    distance <= tolerance / 1_000_000_000
}

/// The verdict on a webhook delivery. The tolerance is in nanoseconds; its
/// whole seconds count.
pub open spec fn webhook_verdict(
    secret: Seq<char>,
    header: Seq<char>,
    payload: Seq<u8>,
    now_unix: int,
    tolerance: int,
) -> Result<(), WebhookError> {
    match signed_header(header) {
        None => Err(WebhookError::MalformedHeader),
        Some((timestamp, candidates)) => if !is_fresh(timestamp, now_unix, tolerance) {
            Err(WebhookError::StaleTimestamp)
        } else if any_verifies(secret, candidates, timestamp, payload) {
            Ok(())
        } else {
            Err(WebhookError::BadSignature)
        },
    }
}

/// Reads the timestamp and the offered signatures from a header.
pub fn read_signature_header(header: &str) -> (signed: Result<SignedHeader, WebhookError>)
    ensures
        match signed {
            Ok(signed) => signed_header(header@) == Some(
                (signed.timestamp as int, text::texts(signed.candidates@)),
            ),
            Err(error) => signed_header(header@) is None && error == WebhookError::MalformedHeader,
        },
{
    let parts: Vec<String> = text::split_at_each(header, ',');
    let ghost all = text::texts(parts@);
    let mut timestamp: Option<i64> = None;
    let mut candidates: Vec<String> = Vec::new();
    let mut i: usize = 0;
    assert(text::texts(candidates@) =~= Seq::empty());
    while i < parts.len()
        invariant
            i <= parts@.len(),
            all == text::texts(parts@),
            all == text::split_all(header@, ','),
            header_parts(all.take(i as int)) == Some(
                (crate::store::integer(timestamp), text::texts(candidates@)),
            ),
        decreases parts.len() - i,
    {
        proof {
            assert(all.take(i as int + 1).drop_last() =~= all.take(i as int));
            assert(all.take(i as int + 1).last() == parts@[i as int]@);
        }
        let part: String = text::trimmed(&parts[i]);
        if let Some((key, value)) = text::split_at_first(&part, '=') {
            if text::same_text(&key, "t") {
                match decimal::parse_i64(&value) {
                    Some(seconds) => {
                        timestamp = Some(seconds);
                    },
                    None => {
                        proof {
                            lemma_header_fault(all, i as int + 1);
                        }
                        return Err(WebhookError::MalformedHeader);
                    },
                }
            } else if text::same_text(&key, "v1") {
                let ghost before = candidates@;
                candidates.push(value);
                assert(text::texts(candidates@) =~= text::texts(before).push(value@));
            }
        }
        i = i + 1;
    }
    assert(all.take(i as int) =~= all);
    match timestamp {
        Some(timestamp) => {
            if candidates.len() == 0 {
                return Err(WebhookError::MalformedHeader);
            }
            Ok(SignedHeader { timestamp, candidates })
        },
        None => Err(WebhookError::MalformedHeader),
    }
}

proof fn lemma_header_fault(parts: Seq<Seq<char>>, i: int)
    requires
        0 <= i <= parts.len(),
        header_parts(parts.take(i)) is None,
    ensures
        header_parts(parts) is None,
    decreases parts.len() - i,
{
    if i == parts.len() {
        assert(parts.take(i) =~= parts);
    } else {
        assert(parts.take(i + 1).drop_last() =~= parts.take(i));
        lemma_header_fault(parts, i + 1);
    }
}

fn signed_message(timestamp: i64, payload: &[u8]) -> (message: Vec<u8>)
    ensures
        message@ == message_bytes(timestamp as int, payload@),
{
    let mut front: String = decimal::decimal_i64(timestamp);
    front.push('.');
    let mut message: Vec<u8> = Vec::new();
    message.extend_from_slice(front.as_str().as_bytes());
    message.extend_from_slice(payload);
    assert(message@ =~= message_bytes(timestamp as int, payload@));
    message
}

/// Whether a timestamp lies within the tolerance of the current time.
fn fresh(timestamp: i64, now_unix: i64, tolerance: Span) -> (within: bool)
    ensures
        within == is_fresh(timestamp as int, now_unix as int, tolerance@),
{
    let distance: i128 = if now_unix >= timestamp {
        now_unix as i128 - timestamp as i128
    } else {
        timestamp as i128 - now_unix as i128
    };
    distance <= tolerance.as_secs() as i128
}

/// The verdict on a well-formed header, given whether one of its signatures
/// verified.
pub fn judge_webhook(
    signed: &SignedHeader,
    verified: bool,
    now_unix: i64,
    tolerance: Span,
) -> (verdict: Result<(), WebhookError>)
    ensures
        verdict == (if !is_fresh(signed.timestamp as int, now_unix as int, tolerance@) {
            Err::<(), WebhookError>(WebhookError::StaleTimestamp)
        } else if verified {
            Ok::<(), WebhookError>(())
        } else {
            Err::<(), WebhookError>(WebhookError::BadSignature)
        }),
{
    if !fresh(signed.timestamp, now_unix, tolerance) {
        return Err(WebhookError::StaleTimestamp);
    }
    if verified {
        Ok(())
    } else {
        Err(WebhookError::BadSignature)
    }
}

/// The header that a signer writes.
pub open spec fn written_header(secret: Seq<char>, timestamp: int, payload: Seq<u8>) -> Seq<char> {
    let tag = crypto::hmac_sha256(encode_utf8(secret), message_bytes(timestamp, payload));
    ("t="@ + decimal::decimal(timestamp)).push(',') + ("v1="@ + crypto::hex_text(tag))
}

/// The timestamp of a header is its first part.
pub proof fn lemma_timestamp_part(timestamp: i64)
    ensures
        ({
            let part = "t="@ + decimal::decimal(timestamp as int);
            &&& !part.contains(',')
            &&& text::trim(part) == part
            &&& text::split_once(part, '=') == Some(("t"@, decimal::decimal(timestamp as int)))
        }),
{
    reveal_strlit("t=");
    reveal_strlit("t");
    let numeral = decimal::decimal(timestamp as int);
    let part = "t="@ + numeral;
    let size = if timestamp < 0 {
        (-(timestamp as int)) as nat
    } else {
        timestamp as nat
    };
    decimal::lemma_digits(size);
    assert forall|i: int| 0 <= i < numeral.len() implies decimal::is_digit(#[trigger] numeral[i])
        || numeral[i] == '-' by {
        if timestamp < 0 && i > 0 {
            assert(numeral[i] == decimal::digits(size)[i - 1]);
        }
    }
    if part.contains(',') {
        let i = part.index_of(',');
        if i >= 2 {
            assert(part[i] == numeral[i - 2]);
        }
    }
    assert(part.last() == numeral.last());
    text::lemma_trim_kept(part);
    assert("t"@ =~= seq!['t']);
    assert(part =~= "t"@.push('=') + numeral);
    text::lemma_split_once_unique("t"@, '=', numeral);
}

/// A signature of a header is a part of its own.
pub proof fn lemma_signature_part(tag: Seq<u8>)
    ensures
        ({
            let part = "v1="@ + crypto::hex_text(tag);
            &&& !part.contains(',')
            &&& text::trim(part) == part
            &&& text::split_once(part, '=') == Some(("v1"@, crypto::hex_text(tag)))
        }),
{
    reveal_strlit("v1=");
    reveal_strlit("v1");
    let digits = crypto::hex_text(tag);
    let part = "v1="@ + digits;
    assert forall|i: int| 0 <= i < digits.len() implies digits[i] != ',' && !text::is_space(
        #[trigger] digits[i],
    ) by {
        assert(0 <= i / 2 < tag.len());
    }
    if part.contains(',') {
        let i = part.index_of(',');
        if i >= 3 {
            assert(part[i] == digits[i - 3]);
        }
    }
    if digits.len() > 0 {
        assert(part.last() == digits.last());
    }
    text::lemma_trim_kept(part);
    assert("v1"@ =~= seq!['v', '1']);
    assert(part =~= "v1"@.push('=') + digits);
    text::lemma_split_once_unique("v1"@, '=', digits);
}

proof fn lemma_two_parts(
    first: Seq<char>,
    second: Seq<char>,
    numeral: Seq<char>,
    seconds: int,
    digits: Seq<char>,
)
    requires
        text::split_once(text::trim(first), '=') == Some(("t"@, numeral)),
        decimal::signed_value(numeral) == Some(seconds),
        text::split_once(text::trim(second), '=') == Some(("v1"@, digits)),
    ensures
        header_parts(seq![first, second]) == Some((Some(seconds), seq![digits])),
{
    assert("t"@ != "v1"@) by {
        reveal_strlit("t");
        reveal_strlit("v1");
        assert("t"@.len() == 1 && "v1"@.len() == 2);
    }
    let none = Seq::<Seq<char>>::empty();
    assert(header_parts(none) == Some((None::<int>, none)));
    assert(seq![first].drop_last() =~= none);
    assert(header_parts(seq![first]) == Some((Some(seconds), none)));
    assert(seq![first, second].drop_last() =~= seq![first]);
    assert(none.push(digits) =~= seq![digits]);
}

/// A header with one timestamp and one signature is read as that.
pub proof fn lemma_written_header(timestamp: i64, tag: Seq<u8>)
    ensures
        signed_header(
            ("t="@ + decimal::decimal(timestamp as int)).push(',') + ("v1="@ + crypto::hex_text(
                tag,
            )),
        ) == Some((timestamp as int, seq![crypto::hex_text(tag)])),
{
    let numeral = decimal::decimal(timestamp as int);
    let digits = crypto::hex_text(tag);
    let first = "t="@ + numeral;
    let second = "v1="@ + digits;
    lemma_timestamp_part(timestamp);
    lemma_signature_part(tag);
    decimal::signed_round_trip(timestamp);
    text::lemma_split_all_front(first, ',', second);
    text::lemma_split_all_single(second, ',');
    assert(seq![first] + seq![second] =~= seq![first, second]);
    lemma_two_parts(first, second, numeral, timestamp as int, digits);
}

/// A delivery signed with the configured secret is accepted while its
/// timestamp is within the tolerance.
pub proof fn signed_delivery_is_accepted(
    secret: Seq<char>,
    timestamp: i64,
    payload: Seq<u8>,
    now_unix: int,
    tolerance: int,
)
    requires
        is_fresh(timestamp as int, now_unix, tolerance),
    ensures
        webhook_verdict(
            secret,
            written_header(secret, timestamp as int, payload),
            payload,
            now_unix,
            tolerance,
        ) == Ok::<(), WebhookError>(()),
{
    let tag = crypto::hmac_sha256(encode_utf8(secret), message_bytes(timestamp as int, payload));
    lemma_written_header(timestamp, tag);
    crypto::hex_round_trip(tag);
    let candidates = seq![crypto::hex_text(tag)];
    let header = written_header(secret, timestamp as int, payload);
    assert(signed_header(header) == Some((timestamp as int, candidates)));
    assert(candidates.len() == 1 && candidate_verifies(
        secret,
        candidates[0],
        timestamp as int,
        payload,
    ));
    assert(any_verifies(secret, candidates, timestamp as int, payload));
}

/// The bytes that an idempotency key is the hash of.
pub open spec fn key_material(creator: Seq<char>, bundle_id: Seq<char>, attempt: int) -> Seq<u8> {
    encode_utf8(creator).push(0x1f) + encode_utf8(bundle_id).push(0x1f) + encode_utf8(
        decimal::decimal(attempt),
    )
}

/// The idempotency key of a verification task's Nth checkout session.
pub open spec fn session_key(creator: Seq<char>, bundle_id: Seq<char>, attempt: int) -> Seq<char> {
    "fiatv1-"@ + crypto::hex_text(crypto::sha256(key_material(creator, bundle_id, attempt)))
}

/// Stable idempotency key for a verification task's Nth checkout session.
pub fn idempotency_key(creator: &str, bundle_id: &str, attempt: i32) -> (key: String)
    ensures
        key@ == session_key(creator@, bundle_id@, attempt as int),
        key@.len() == 71,
        forall|i: int|
            7 <= i < 71 ==> decimal::is_digit(#[trigger] key@[i]) || 'a' <= key@[i] <= 'f',
{
    let mut material: Vec<u8> = Vec::new();
    material.extend_from_slice(creator.as_bytes());
    material.push(0x1f);
    material.extend_from_slice(bundle_id.as_bytes());
    material.push(0x1f);
    material.extend_from_slice(decimal::decimal_i64(attempt as i64).as_str().as_bytes());
    assert(material@ =~= key_material(creator@, bundle_id@, attempt as int));
    let digest: Vec<u8> = crypto::sha256_digest(&material);
    let key: String = key_of_digest(&digest);
    proof {
        reveal_strlit("fiatv1-");
        assert forall|i: int| 7 <= i < 71 implies decimal::is_digit(#[trigger] key@[i]) || 'a'
            <= key@[i] <= 'f' by {
            assert(key@[i] == crypto::hex_text(digest@)[i - 7]);
            assert(0 <= (i - 7) / 2 < digest@.len());
        }
    }
    key
}

/// Different tasks, or different attempts of one task, have different key
/// material, if neither the creator nor the bundle id holds the unit
/// separator.
pub proof fn key_material_injective(
    creator: Seq<char>,
    bundle_id: Seq<char>,
    attempt: i32,
    other_creator: Seq<char>,
    other_bundle_id: Seq<char>,
    other_attempt: i32,
)
    requires
        !creator.contains('\x1f'),
        !bundle_id.contains('\x1f'),
        !other_creator.contains('\x1f'),
        !other_bundle_id.contains('\x1f'),
        key_material(creator, bundle_id, attempt as int) == key_material(
            other_creator,
            other_bundle_id,
            other_attempt as int,
        ),
    ensures
        creator == other_creator,
        bundle_id == other_bundle_id,
        attempt == other_attempt,
{
    let first = bundle_id.push('\x1f') + decimal::decimal(attempt as int);
    let second = other_bundle_id.push('\x1f') + decimal::decimal(other_attempt as int);
    lemma_key_material(creator, bundle_id, attempt as int);
    lemma_key_material(other_creator, other_bundle_id, other_attempt as int);
    text::lemma_utf8_injective(
        creator.push('\x1f') + first,
        other_creator.push('\x1f') + second,
    );
    text::lemma_split_once_unique(creator, '\x1f', first);
    text::lemma_split_once_unique(other_creator, '\x1f', second);
    text::lemma_split_once_unique(bundle_id, '\x1f', decimal::decimal(attempt as int));
    text::lemma_split_once_unique(other_bundle_id, '\x1f', decimal::decimal(other_attempt as int));
    decimal::decimal_injective(attempt as i64, other_attempt as i64);
}

proof fn lemma_separated(front: Seq<char>)
    ensures
        encode_utf8(front.push('\x1f')) == encode_utf8(front).push(0x1f),
{
    let separator = seq!['\x1f'];
    text::lemma_utf8_concat(front, separator);
    assert(front + separator =~= front.push('\x1f'));
    is_ascii_chars_encode_utf8(separator);
    assert(encode_utf8(separator) =~= seq![0x1fu8]);
    assert(encode_utf8(front) + seq![0x1fu8] =~= encode_utf8(front).push(0x1f));
}

proof fn lemma_key_material(creator: Seq<char>, bundle_id: Seq<char>, attempt: int)
    ensures
        key_material(creator, bundle_id, attempt) == encode_utf8(
            creator.push('\x1f') + (bundle_id.push('\x1f') + decimal::decimal(attempt)),
        ),
{
    let numeral = decimal::decimal(attempt);
    lemma_separated(creator);
    lemma_separated(bundle_id);
    text::lemma_utf8_concat(bundle_id.push('\x1f'), numeral);
    text::lemma_utf8_concat(creator.push('\x1f'), bundle_id.push('\x1f') + numeral);
    assert(key_material(creator, bundle_id, attempt) =~= encode_utf8(creator).push(0x1f) + (
    encode_utf8(bundle_id).push(0x1f) + encode_utf8(numeral)));
}

/// The idempotency key that is made of a digest.
pub fn key_of_digest(digest: &[u8]) -> (key: String)
    ensures
        key@ == "fiatv1-"@ + crypto::hex_text(digest@),
{
    text::joined("fiatv1-", &crypto::hex_encode(digest))
}

/// The reference that a session carries back to its correlation.
pub open spec fn reference_of(creator: Seq<char>, bundle_id: Seq<char>) -> Seq<char> {
    creator.push('_') + bundle_id
}

/// Client reference of a session: creator and bundle id, joined by an
/// underscore, which neither an app key nor a bundle id holds.
pub fn client_reference(creator: &str, bundle_id: &str) -> (reference: String)
    ensures
        reference@ == reference_of(creator@, bundle_id@),
{
    let mut reference: String = creator.to_owned();
    reference.push('_');
    reference.append(bundle_id);
    reference
}

/// A reference read back at its first underscore gives the identity that it
/// was written from, if the creator holds no underscore.
pub proof fn reference_round_trip(creator: Seq<char>, bundle_id: Seq<char>)
    requires
        !creator.contains('_'),
    ensures
        text::split_once(reference_of(creator, bundle_id), '_') == Some((creator, bundle_id)),
{
    text::lemma_split_once_unique(creator, '_', bundle_id);
}

} // verus!
