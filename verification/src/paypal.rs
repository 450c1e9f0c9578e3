//! PayPal processor plugin: the requests it makes, its cached access token, and
//! what its orders and captures say.

use crate::api_call;
use crate::api_call::ApiCall;
use crate::api_call::ApiCallModel;
use crate::api_call::Credentials;
use crate::api_call::CredentialsModel;
use crate::api_call::Method;
use crate::api_call::Payload;
use crate::api_call::PayloadModel;
use crate::api_call::Postback;
use crate::api_call::PostbackModel;
use crate::clock;
use crate::clock::Timestamp;
use crate::json;
use crate::json::Json;
use crate::json::JsonModel;
use crate::money;
use crate::text;
use crate::web_url;
use crate::web_url::WebUrl;
use vstd::prelude::*;

pub use crate::money::decimal_to_minor;
pub use crate::money::minor_to_decimal;

verus! {

#[derive(Clone, Debug)]
pub enum PaypalError {
    /// The request failed on its way.
    Http(String),
    /// The API answered with an error status.
    Api { status: u16, body: String },
    /// The answer was not the expected shape.
    Shape(String),
    /// The webhook body is not JSON.
    InvalidWebhookBody,
}

#[derive(Clone, Debug)]
pub struct Link {
    pub rel: String,
    pub href: String,
}

#[derive(Clone, Debug)]
pub struct Amount {
    pub currency_code: String,
    pub value: String,
}

/// A capture inside an order, or one read by its own id.
#[derive(Clone, Debug)]
pub struct Capture {
    pub id: String,
    pub status: Option<String>,
    pub amount: Option<Amount>,
    pub custom_id: Option<String>,
}

#[derive(Clone, Debug)]
pub struct Payments {
    pub captures: Vec<Capture>,
}

#[derive(Clone, Debug)]
pub struct PurchaseUnit {
    pub payments: Option<Payments>,
}

/// The fields of an order that the verifier consumes.
#[derive(Clone, Debug)]
pub struct Order {
    pub id: String,
    /// `CREATED` | `SAVED` | `APPROVED` | `VOIDED` | `COMPLETED` |
    /// `PAYER_ACTION_REQUIRED`. `COMPLETED` alone is not payment: the capture's
    /// own status must also be `COMPLETED`.
    pub status: Option<String>,
    pub links: Vec<Link>,
    pub purchase_units: Vec<PurchaseUnit>,
}

/// The target of the first link of that relation.
pub open spec fn link_target(links: Seq<Link>, rel: Seq<char>) -> Option<Seq<char>>
    decreases links.len(),
{
    if links.len() == 0 {
        None
    } else if links[0].rel@ == rel {
        Some(links[0].href@)
    } else {
        link_target(links.skip(1), rel)
    }
}

/// The buyer's approval URL: the `payer-action` link, with `approve` as the
/// fallback.
pub open spec fn approval_target(links: Seq<Link>) -> Option<Seq<char>> {
    match link_target(links, "payer-action"@) {
        Some(target) => Some(target),
        None => link_target(links, "approve"@),
    }
}

/// The captures of all purchase units, in order.
pub open spec fn all_captures(units: Seq<PurchaseUnit>) -> Seq<Capture>
    decreases units.len(),
{
    if units.len() == 0 {
        Seq::empty()
    } else {
        let rest = all_captures(units.skip(1));
        match units[0].payments {
            Some(payments) => payments.captures@ + rest,
            None => rest,
        }
    }
}

/// Whether a capture's own status is `COMPLETED`.
pub open spec fn is_completed(capture: Capture) -> bool {
    text::text_opt(capture.status) == Some("COMPLETED"@)
}

/// The first completed capture.
pub open spec fn first_completed(captures: Seq<Capture>) -> Option<Capture>
    decreases captures.len(),
{
    if captures.len() == 0 {
        None
    } else if is_completed(captures[0]) {
        Some(captures[0])
    } else {
        first_completed(captures.skip(1))
    }
}

proof fn lemma_first_completed(front: Seq<Capture>, rest: Seq<Capture>)
    ensures
        first_completed(front + rest) == (match first_completed(front) {
            Some(capture) => Some(capture),
            None => first_completed(rest),
        }),
    decreases front.len(),
{
    if front.len() == 0 {
        assert(front + rest =~= rest);
    } else {
        assert((front + rest).skip(1) =~= front.skip(1) + rest);
        lemma_first_completed(front.skip(1), rest);
    }
}

/// The first completed capture is one of the captures, and is completed.
pub proof fn lemma_first_is_completed(captures: Seq<Capture>)
    ensures
        first_completed(captures) matches Some(capture) ==> captures.contains(capture)
            && is_completed(capture),
    decreases captures.len(),
{
    if captures.len() > 0 {
        let rest = captures.skip(1);
        lemma_first_is_completed(rest);
        match first_completed(rest) {
            Some(capture) => {
                if !is_completed(captures[0]) {
                    let i = rest.index_of(capture);
                    assert(captures[i + 1] == capture);
                }
            },
            None => {},
        }
    }
}

fn find_link<'a>(links: &'a Vec<Link>, rel: &str) -> (target: Option<&'a str>)
    ensures
        text::str_opt(target) == link_target(links@, rel@),
{
    let mut i: usize = 0;
    assert(links@.skip(0) =~= links@);
    while i < links.len()
        invariant
            i <= links@.len(),
            link_target(links@, rel@) == link_target(links@.skip(i as int), rel@),
        decreases links.len() - i,
    {
        if text::same_text(&links[i].rel, rel) {
            return Some(links[i].href.as_str());
        }
        assert(links@.skip(i as int).skip(1) =~= links@.skip(i as int + 1));
        i = i + 1;
    }
    None
}

fn find_completed(captures: &Vec<Capture>) -> (found: Option<&Capture>)
    ensures
        match found {
            Some(capture) => first_completed(captures@) == Some(*capture),
            None => first_completed(captures@) is None,
        },
{
    let mut i: usize = 0;
    assert(captures@.skip(0) =~= captures@);
    while i < captures.len()
        invariant
            i <= captures@.len(),
            first_completed(captures@) == first_completed(captures@.skip(i as int)),
        decreases captures.len() - i,
    {
        if let Some(status) = &captures[i].status {
            if text::same_text(status, "COMPLETED") {
                return Some(&captures[i]);
            }
        }
        assert(captures@.skip(i as int).skip(1) =~= captures@.skip(i as int + 1));
        i = i + 1;
    }
    None
}

impl Order {
    /// The buyer's hosted approval URL.
    pub fn approval_url(&self) -> (url: Option<&str>)
        ensures
            text::str_opt(url) == approval_target(self.links@),
    {
        match find_link(&self.links, "payer-action") {
            Some(target) => Some(target),
            None => find_link(&self.links, "approve"),
        }
    }

    /// The first capture whose own status is `COMPLETED`.
    pub fn completed_capture(&self) -> (found: Option<&Capture>)
        ensures
            match found {
                Some(capture) => first_completed(all_captures(self.purchase_units@)) == Some(
                    *capture,
                ),
                None => first_completed(all_captures(self.purchase_units@)) is None,
            },
    {
        let ghost units = self.purchase_units@;
        let mut i: usize = 0;
        assert(units.skip(0) =~= units);
        while i < self.purchase_units.len()
            invariant
                i <= units.len(),
                units == self.purchase_units@,
                first_completed(all_captures(units)) == first_completed(
                    all_captures(units.skip(i as int)),
                ),
            decreases self.purchase_units.len() - i,
        {
            assert(units.skip(i as int).skip(1) =~= units.skip(i as int + 1));
            if let Some(payments) = &self.purchase_units[i].payments {
                proof {
                    lemma_first_completed(
                        payments.captures@,
                        all_captures(units.skip(i as int + 1)),
                    );
                }
                if let Some(capture) = find_completed(&payments.captures) {
                    return Some(capture);
                }
            }
            i = i + 1;
        }
        None
    }
}

/// A dispute; only the transaction linkage is needed.
#[derive(Clone, Debug)]
pub struct Dispute {
    pub disputed_transactions: Vec<DisputedTransaction>,
}

#[derive(Clone, Debug)]
pub struct DisputedTransaction {
    /// The seller-side transaction id, which is the capture id.
    pub seller_transaction_id: Option<String>,
}

/// The headers that PayPal sends with every webhook delivery.
#[derive(Clone, Debug)]
pub struct WebhookHeaders {
    pub transmission_id: String,
    pub transmission_time: String,
    pub transmission_sig: String,
    pub cert_url: String,
    pub auth_algo: String,
}

/// The answer to a token request.
#[derive(Clone, Debug)]
pub struct TokenResponse {
    pub access_token: String,
    pub expires_in: i64,
}

/// Access tokens are refreshed this many seconds before their expiry.
pub const TOKEN_REFRESH_SLACK_SECONDS: i64 = 60;

/// The last access token and the second at which it expires.
pub struct TokenCache {
    entry: Option<(String, i64)>,
}

impl View for TokenCache {
    type V = Option<(Seq<char>, int)>;

    closed spec fn view(&self) -> Option<(Seq<char>, int)> {
        match self.entry {
            Some((token, expires_at)) => Some((token@, expires_at as int)),
            None => None,
        }
    }
}

/// The cached token, unless it expires within the slack.
pub open spec fn usable_token(cache: Option<(Seq<char>, int)>, now_unix: int) -> Option<Seq<char>> {
    match cache {
        Some((token, expires_at)) => if expires_at > now_unix + TOKEN_REFRESH_SLACK_SECONDS {
            Some(token)
        } else {
            None
        },
        None => None,
    }
}

impl TokenCache {
    /// A cache without a token.
    pub fn new() -> (cache: TokenCache)
        ensures
            cache@ is None,
    {
        TokenCache { entry: None }
    }

    /// The cached access token, unless it has to be refreshed.
    pub fn access_token(&self, now: Timestamp) -> (token: Option<String>)
        ensures
            text::text_opt(token) == usable_token(self@, clock::unix_seconds(now@)),
    {
        match &self.entry {
            Some((token, expires_at)) => {
                if *expires_at > now.unix() + TOKEN_REFRESH_SLACK_SECONDS {
                    Some(token.clone())
                } else {
                    None
                }
            },
            None => None,
        }
    }

    /// Remembers a token that was requested at `now`.
    pub fn remember(&mut self, response: &TokenResponse, now: Timestamp)
        requires
            i64::MIN <= clock::unix_seconds(now@) + response.expires_in <= i64::MAX,
        ensures
            final(self)@ == Some(
                (response.access_token@, clock::unix_seconds(now@) + response.expires_in),
            ),
    {
        let expires_at: i64 = now.unix() + response.expires_in;
        self.entry = Some((response.access_token.clone(), expires_at));
    }
}

/// A remembered token is served again until it is about to expire, and never
/// after that.
pub proof fn remembered_token_is_served(
    token: Seq<char>,
    requested_at: int,
    expires_in: int,
    now_unix: int,
)
    ensures
        usable_token(Some((token, requested_at + expires_in)), now_unix) == (if now_unix
            + TOKEN_REFRESH_SLACK_SECONDS < requested_at + expires_in {
            Some(token)
        } else {
            None
        }),
{
}

pub struct PaypalProcessor {
    api_base: WebUrl,
    client_id: String,
    client_secret: String,
    webhook_id: Option<String>,
}

/// A text member.
fn text_member(name: &str, value: &str) -> (member: (String, Json))
    ensures
        (member.0@, member.1@) == (name@, JsonModel::Text(value@)),
{
    (name.to_owned(), Json::Text(value.to_owned()))
}

/// An object of the given members.
fn object(members: Vec<(String, Json)>) -> (value: Json)
    ensures
        value@ == JsonModel::Object(json::member_trees(members@)),
{
    let value: Json = Json::Object(members);
    assert(value@ == JsonModel::Object(json::member_trees(members@))) by {
        assert(value@->Object_0 =~= json::member_trees(members@));
    }
    value
}

impl PaypalProcessor {
    #[verifier::type_invariant]
    spec fn base_fits(self) -> bool {
        self.api_base@.len() <= web_url::TEXT_LIMIT
    }

    /// The base URL of the API.
    pub closed spec fn base(self) -> Seq<char> {
        self.api_base@
    }

    /// The id and the secret that tokens are requested with.
    pub closed spec fn client(self) -> (Seq<char>, Seq<char>) {
        (self.client_id@, self.client_secret@)
    }

    /// The id of the webhook that deliveries are verified against.
    pub closed spec fn webhook(self) -> Option<Seq<char>> {
        text::text_opt(self.webhook_id)
    }

    pub fn new(
        api_base: WebUrl,
        client_id: String,
        client_secret: String,
        webhook_id: Option<String>,
    ) -> (paypal: Self)
        requires
            api_base@.len() <= web_url::TEXT_LIMIT,
        ensures
            paypal.base() == api_base@,
            paypal.client() == (client_id@, client_secret@),
            paypal.webhook() == text::text_opt(webhook_id),
    {
        PaypalProcessor { api_base, client_id, client_secret, webhook_id }
    }

    /// The webhook id, if one is configured. Without it the webhook endpoint
    /// fails closed and payment observation relies on the API poll.
    pub fn webhook_id(&self) -> (id: &Option<String>)
        ensures
            text::text_opt(*id) == self.webhook(),
    {
        &self.webhook_id
    }

    fn endpoint(&self, path: &str) -> (url: String)
        requires
            path@.len() <= web_url::TEXT_LIMIT,
        ensures
            url@ == web_url::url_with_path(self.base(), path@),
    {
        proof {
            use_type_invariant(self);
        }
        self.api_base.with_path(path)
    }

    /// The request for a client-credentials access token.
    pub fn token_request(&self) -> (call: ApiCall)
        ensures
            call@ == (ApiCallModel {
                method: Method::Post,
                url: web_url::url_with_path(self.base(), "/v1/oauth2/token"@),
                credentials: CredentialsModel::Basic {
                    user: self.client().0,
                    password: self.client().1,
                },
                headers: Seq::empty(),
                payload: PayloadModel::Form(seq![("grant_type"@, "client_credentials"@)]),
            }),
    {
        proof {
            reveal_strlit("/v1/oauth2/token");
        }
        let mut form: Vec<(String, String)> = Vec::new();
        assert(api_call::pairs(form@) =~= Seq::empty());
        api_call::push_pair(&mut form, "grant_type", "client_credentials");
        assert(api_call::pairs(form@) =~= seq![("grant_type"@, "client_credentials"@)]);
        let headers: Vec<(String, String)> = Vec::new();
        assert(api_call::pairs(headers@) =~= Seq::empty());
        ApiCall {
            method: Method::Post,
            url: self.endpoint("/v1/oauth2/token"),
            credentials: Credentials::Basic {
                user: self.client_id.clone(),
                password: self.client_secret.clone(),
            },
            headers,
            payload: Payload::Form(form),
        }
    }

    /// The document that an order is created with.
    pub open spec fn order_document(
        reference: Seq<char>,
        amount_minor: int,
        asset: Seq<char>,
        description: Seq<char>,
        return_url: Seq<char>,
        cancel_url: Seq<char>,
    ) -> JsonModel {
        let amount = JsonModel::Object(
            seq![
                ("currency_code"@, JsonModel::Text(asset)),
                ("value"@, JsonModel::Text(money::decimal_amount(asset, amount_minor))),
            ],
        );
        let unit = JsonModel::Object(
            seq![
                ("custom_id"@, JsonModel::Text(reference)),
                ("description"@, JsonModel::Text(description)),
                ("amount"@, amount),
            ],
        );
        let context = JsonModel::Object(
            seq![
                ("return_url"@, JsonModel::Text(return_url)),
                ("cancel_url"@, JsonModel::Text(cancel_url)),
                ("user_action"@, JsonModel::Text("PAY_NOW"@)),
                ("shipping_preference"@, JsonModel::Text("NO_SHIPPING"@)),
            ],
        );
        let source = JsonModel::Object(
            seq![("paypal"@, JsonModel::Object(seq![("experience_context"@, context)]))],
        );
        JsonModel::Object(
            seq![
                ("intent"@, JsonModel::Text("CAPTURE"@)),
                (
                    "processing_instruction"@,
                    JsonModel::Text("ORDER_COMPLETE_ON_PAYMENT_APPROVAL"@),
                ),
                ("purchase_units"@, JsonModel::List(seq![unit])),
                ("payment_source"@, source),
            ],
        )
    }

    fn order_body(
        reference: &str,
        amount_minor: i64,
        asset: &str,
        description: &str,
        return_url: &str,
        cancel_url: &str,
    ) -> (document: Json)
        ensures
            document@ == Self::order_document(
                reference@,
                amount_minor as int,
                asset@,
                description@,
                return_url@,
                cancel_url@,
            ),
    {
        let mut amount: Vec<(String, Json)> = Vec::new();
        amount.push(text_member("currency_code", asset));
        amount.push(text_member("value", &money::minor_to_decimal(asset, amount_minor)));
        let ghost amount_tree = seq![
            ("currency_code"@, JsonModel::Text(asset@)),
            ("value"@, JsonModel::Text(money::decimal_amount(asset@, amount_minor as int))),
        ];
        assert(json::member_trees(amount@) =~= amount_tree);
        let mut unit: Vec<(String, Json)> = Vec::new();
        unit.push(text_member("custom_id", reference));
        unit.push(text_member("description", description));
        unit.push(("amount".to_owned(), object(amount)));
        let ghost unit_tree = seq![
            ("custom_id"@, JsonModel::Text(reference@)),
            ("description"@, JsonModel::Text(description@)),
            ("amount"@, JsonModel::Object(amount_tree)),
        ];
        assert(json::member_trees(unit@) =~= unit_tree);
        let mut context: Vec<(String, Json)> = Vec::new();
        context.push(text_member("return_url", return_url));
        context.push(text_member("cancel_url", cancel_url));
        context.push(text_member("user_action", "PAY_NOW"));
        context.push(text_member("shipping_preference", "NO_SHIPPING"));
        let ghost context_tree = seq![
            ("return_url"@, JsonModel::Text(return_url@)),
            ("cancel_url"@, JsonModel::Text(cancel_url@)),
            ("user_action"@, JsonModel::Text("PAY_NOW"@)),
            ("shipping_preference"@, JsonModel::Text("NO_SHIPPING"@)),
        ];
        assert(json::member_trees(context@) =~= context_tree);
        let mut paypal: Vec<(String, Json)> = Vec::new();
        paypal.push(("experience_context".to_owned(), object(context)));
        let ghost paypal_tree = seq![("experience_context"@, JsonModel::Object(context_tree))];
        assert(json::member_trees(paypal@) =~= paypal_tree);
        let mut source: Vec<(String, Json)> = Vec::new();
        source.push(("paypal".to_owned(), object(paypal)));
        let ghost source_tree = seq![("paypal"@, JsonModel::Object(paypal_tree))];
        assert(json::member_trees(source@) =~= source_tree);
        let mut units: Vec<Json> = Vec::new();
        units.push(object(unit));
        let list: Json = Json::List(units);
        assert(list@ == JsonModel::List(seq![JsonModel::Object(unit_tree)])) by {
            assert(list@->List_0 =~= seq![JsonModel::Object(unit_tree)]);
        }
        let mut members: Vec<(String, Json)> = Vec::new();
        members.push(text_member("intent", "CAPTURE"));
        members.push(
            text_member("processing_instruction", "ORDER_COMPLETE_ON_PAYMENT_APPROVAL"),
        );
        members.push(("purchase_units".to_owned(), list));
        members.push(("payment_source".to_owned(), object(source)));
        assert(json::member_trees(members@) =~= seq![
            ("intent"@, JsonModel::Text("CAPTURE"@)),
            (
                "processing_instruction"@,
                JsonModel::Text("ORDER_COMPLETE_ON_PAYMENT_APPROVAL"@),
            ),
            ("purchase_units"@, JsonModel::List(seq![JsonModel::Object(unit_tree)])),
            ("payment_source"@, JsonModel::Object(source_tree)),
        ]);
        object(members)
    }

    /// The headers of a call that creates or captures an order.
    pub open spec fn write_headers(request_id: Seq<char>) -> Seq<(Seq<char>, Seq<char>)> {
        seq![("PayPal-Request-Id"@, request_id), ("Prefer"@, "return=representation"@)]
    }

    fn order_headers(request_id: &str) -> (headers: Vec<(String, String)>)
        ensures
            api_call::pairs(headers@) == Self::write_headers(request_id@),
    {
        let mut headers: Vec<(String, String)> = Vec::new();
        assert(api_call::pairs(headers@) =~= Seq::empty());
        api_call::push_pair(&mut headers, "PayPal-Request-Id", request_id);
        api_call::push_pair(&mut headers, "Prefer", "return=representation");
        assert(api_call::pairs(headers@) =~= Self::write_headers(request_id@));
        headers
    }

    /// Creates an order that is captured on approval. The request id makes a
    /// replay return the order that exists.
    pub fn create_order(
        &self,
        token: &str,
        reference: &str,
        request_id: &str,
        amount_minor: i64,
        asset: &str,
        description: &str,
        return_url: &str,
        cancel_url: &str,
    ) -> (call: ApiCall)
        ensures
            call@ == (ApiCallModel {
                method: Method::Post,
                url: web_url::url_with_path(self.base(), "/v2/checkout/orders"@),
                credentials: CredentialsModel::Bearer(token@),
                headers: Self::write_headers(request_id@),
                payload: PayloadModel::Document(
                    Self::order_document(
                        reference@,
                        amount_minor as int,
                        asset@,
                        description@,
                        return_url@,
                        cancel_url@,
                    ),
                ),
            }),
    {
        proof {
            reveal_strlit("/v2/checkout/orders");
        }
        ApiCall {
            method: Method::Post,
            url: self.endpoint("/v2/checkout/orders"),
            credentials: Credentials::Bearer(token.to_owned()),
            headers: Self::order_headers(request_id),
            payload: Payload::Document(
                Self::order_body(
                    reference,
                    amount_minor,
                    asset,
                    description,
                    return_url,
                    cancel_url,
                ),
            ),
        }
    }

    /// A read of one object.
    pub open spec fn read_call(self, token: Seq<char>, prefix: Seq<char>, id: Seq<char>) -> ApiCallModel {
        ApiCallModel {
            method: Method::Get,
            url: web_url::url_with_path(self.base(), prefix + id),
            credentials: CredentialsModel::Bearer(token),
            headers: Seq::empty(),
            payload: PayloadModel::Empty,
        }
    }

    fn read(&self, token: &str, prefix: &str, id: &str) -> (call: ApiCall)
        requires
            prefix@.len() + id@.len() <= web_url::TEXT_LIMIT,
        ensures
            call@ == self.read_call(token@, prefix@, id@),
    {
        let headers: Vec<(String, String)> = Vec::new();
        assert(api_call::pairs(headers@) =~= Seq::empty());
        ApiCall {
            method: Method::Get,
            url: self.endpoint(&text::joined(prefix, id)),
            credentials: Credentials::Bearer(token.to_owned()),
            headers,
            payload: Payload::Empty,
        }
    }

    /// Reads an order.
    pub fn retrieve_order(&self, token: &str, order_id: &str) -> (call: ApiCall)
        requires
            order_id@.len() <= web_url::TEXT_LIMIT - 64,
        ensures
            call@ == self.read_call(token@, "/v2/checkout/orders/"@, order_id@),
    {
        proof {
            reveal_strlit("/v2/checkout/orders/");
        }
        self.read(token, "/v2/checkout/orders/", order_id)
    }

    /// Captures an approved order.
    pub fn capture_order(&self, token: &str, order_id: &str, request_id: &str) -> (call: ApiCall)
        requires
            order_id@.len() <= web_url::TEXT_LIMIT - 64,
        ensures
            call@ == (ApiCallModel {
                method: Method::Post,
                url: web_url::url_with_path(
                    self.base(),
                    "/v2/checkout/orders/"@ + order_id@ + "/capture"@,
                ),
                credentials: CredentialsModel::Bearer(token@),
                headers: Self::write_headers(request_id@),
                payload: PayloadModel::Document(JsonModel::Object(Seq::empty())),
            }),
    {
        proof {
            reveal_strlit("/v2/checkout/orders/");
            reveal_strlit("/capture");
        }
        let path: String = text::joined(
            &text::joined("/v2/checkout/orders/", order_id),
            "/capture",
        );
        let members: Vec<(String, Json)> = Vec::new();
        assert(json::member_trees(members@) =~= Seq::empty());
        ApiCall {
            method: Method::Post,
            url: self.endpoint(&path),
            credentials: Credentials::Bearer(token.to_owned()),
            headers: Self::order_headers(request_id),
            payload: Payload::Document(object(members)),
        }
    }

    /// Reads a capture.
    pub fn retrieve_capture(&self, token: &str, capture_id: &str) -> (call: ApiCall)
        requires
            capture_id@.len() <= web_url::TEXT_LIMIT - 64,
        ensures
            call@ == self.read_call(token@, "/v2/payments/captures/"@, capture_id@),
    {
        proof {
            reveal_strlit("/v2/payments/captures/");
        }
        self.read(token, "/v2/payments/captures/", capture_id)
    }

    /// Reads a dispute.
    pub fn retrieve_dispute(&self, token: &str, dispute_id: &str) -> (call: ApiCall)
        requires
            dispute_id@.len() <= web_url::TEXT_LIMIT - 64,
        ensures
            call@ == self.read_call(token@, "/v1/customer-disputes/"@, dispute_id@),
    {
        proof {
            reveal_strlit("/v1/customer-disputes/");
        }
        self.read(token, "/v1/customer-disputes/", dispute_id)
    }

    /// Asks PayPal whether it sent a webhook delivery.
    pub fn verify_webhook(&self, token: &str, postback: Postback) -> (call: ApiCall)
        ensures
            call@ == (ApiCallModel {
                method: Method::Post,
                url: web_url::url_with_path(
                    self.base(),
                    "/v1/notifications/verify-webhook-signature"@,
                ),
                credentials: CredentialsModel::Bearer(token@),
                headers: Seq::empty(),
                payload: PayloadModel::Verification(postback@),
            }),
    {
        proof {
            reveal_strlit("/v1/notifications/verify-webhook-signature");
        }
        let headers: Vec<(String, String)> = Vec::new();
        assert(api_call::pairs(headers@) =~= Seq::empty());
        ApiCall {
            method: Method::Post,
            url: self.endpoint("/v1/notifications/verify-webhook-signature"),
            credentials: Credentials::Bearer(token.to_owned()),
            headers,
            payload: Payload::Verification(postback),
        }
    }

    /// The body of an answer to be read, unless its status is an error.
    pub fn parse(status: u16, body: String) -> (answer: Result<String, PaypalError>)
        ensures
            match answer {
                Ok(answer) => api_call::is_success(status) && answer@ == body@,
                Err(PaypalError::Api { status: code, body: kept }) => {
                    &&& !api_call::is_success(status)
                    &&& code == status
                    &&& kept@ == api_call::error_excerpt(body@)
                },
                Err(_) => false,
            },
    {
        if status >= 200 && status < 300 {
            return Ok(body);
        }
        Err(PaypalError::Api { status, body: api_call::excerpt(body) })
    }
}

/// The postback that asks about a delivery.
pub open spec fn postback_model(
    webhook_id: Seq<char>,
    headers: WebhookHeaders,
    event: Seq<char>,
) -> PostbackModel {
    PostbackModel {
        auth_algo: headers.auth_algo@,
        cert_url: headers.cert_url@,
        transmission_id: headers.transmission_id@,
        transmission_sig: headers.transmission_sig@,
        transmission_time: headers.transmission_time@,
        webhook_id,
        webhook_event: event,
    }
}

/// The postback that asks about a delivery. The event goes back as it was
/// received, because the signature covers the transmitted bytes.
pub fn postback(webhook_id: &str, headers: WebhookHeaders, event: String) -> (question: Postback)
    ensures
        question@ == postback_model(webhook_id@, headers, event@),
{
    Postback {
        auth_algo: headers.auth_algo,
        cert_url: headers.cert_url,
        transmission_id: headers.transmission_id,
        transmission_sig: headers.transmission_sig,
        transmission_time: headers.transmission_time,
        webhook_id: webhook_id.to_owned(),
        webhook_event: event,
    }
}

/// Whether the answer to a postback attests the delivery.
pub fn is_attested(verification_status: &str) -> (attested: bool)
    ensures
        attested == (verification_status@ == "SUCCESS"@),
{
    text::same_text(verification_status, "SUCCESS")
}

} // verus!
