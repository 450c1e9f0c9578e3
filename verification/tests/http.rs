//! Endpoint scenarios: the gateway's flows against the store in memory, mock
//! Stripe and PayPal APIs, and a mock Paykit Server. Signatures are real
//! ed25519 over canonical JSON. The mock PayPal verification really verifies:
//! it recomputes an HMAC over the transmission fields and a digest of the
//! forwarded event bytes.

use std::collections::HashMap;

use base64::engine::general_purpose::URL_SAFE_NO_PAD;
use base64::Engine;
use ed25519_dalek::{Signer, SigningKey};
use fiat_verifier::api_call::{ApiCall, Credentials, Method, Payload, Postback};
use fiat_verifier::auth::{Headers, TrustedKey};
use fiat_verifier::checkout::Checkout;
use fiat_verifier::clock::{Span, Timestamp};
use fiat_verifier::effects::{Action, Event, Reply, Turn};
use fiat_verifier::http::{signature_string, AppState};
use fiat_verifier::invoice::Invoice;
use fiat_verifier::json::{parse_json, Json};
use fiat_verifier::lock_fetch::{LockCriterion, LockFetchError};
use fiat_verifier::memory::MemoryStore;
use fiat_verifier::paypal::{
    is_attested, Amount, Capture, Dispute, DisputedTransaction, Link, Order, Payments,
    PaypalError, PaypalProcessor, PurchaseUnit, TokenCache, TokenResponse,
};
use fiat_verifier::proxy::{mirror, Answer, Mirrored, PaykitProxy};
use fiat_verifier::store::{Correlation, CorrelationState, NewCorrelation, SessionRecord};
use fiat_verifier::stripe::{Charge, CheckoutSession, StripeError, StripeProcessor};
use fiat_verifier::verification::{ProcessorKind, Processors};
use fiat_verifier::web_url::WebUrl;
use fiat_verifier::webhooks::judge_paypal_event;
use fiat_verifier::wire::{CheckoutSessionRequest, StatusKind};
use fiat_verifier::worker;
use hmac::{Hmac, Mac};
use serde_json::Value;
use sha2::{Digest, Sha256};

const CREATOR: &str = "pubkytkrq8zmwb8a3m9k15csu3q17qmfgqnp9dskbrg9uq1rydpyxp7qy";
const READER: &str = "pubky7ir1ttte48bcp4zjychjyscicrwi1j34mtt91ptsafdbjmr8g9eo";
const BUNDLE: &str = "000G40R40M30E209185GR38E1W";
const WEBHOOK_SECRET: &str = "whsec_unit_test";
const PAYPAL_WEBHOOK_ID: &str = "WH-UNIT-TEST";
const PAYPAL_MOCK_VERIFY_KEY: &str = "paypal_mock_transmission_key";
const ORIGIN_A: &str = "https://shop.pubky.app";
const ORIGIN_B: &str = "https://staging-shop.vercel.app";
const START: i64 = 1_760_000_000;

fn locks_key() -> SigningKey {
    SigningKey::from_bytes(&[9_u8; 32])
}

fn sign(key: &SigningKey, body: &[u8]) -> String {
    URL_SAFE_NO_PAD.encode(key.sign(body).to_bytes())
}

fn json(text: &str) -> Value {
    serde_json::from_str(text).unwrap()
}

fn canonical(text: &str) -> Vec<u8> {
    serde_json_canonicalizer::to_vec(&json(text)).unwrap()
}

fn text(value: &Value) -> Option<String> {
    value.as_str().map(str::to_owned)
}

fn paypal_mock_signature(id: &str, time: &str, webhook_id: &str, event: &[u8]) -> String {
    let digest = hex::encode(Sha256::digest(event));
    let mut mac = Hmac::<Sha256>::new_from_slice(PAYPAL_MOCK_VERIFY_KEY.as_bytes()).unwrap();
    mac.update(format!("{id}|{time}|{webhook_id}|{digest}").as_bytes());
    hex::encode(mac.finalize().into_bytes())
}

fn value_of(json: &Json) -> Value {
    match json {
        Json::Null => Value::Null,
        Json::Bool(value) => Value::Bool(*value),
        Json::Number(numeral) => serde_json::from_str(numeral).unwrap(),
        Json::Text(value) => Value::String(value.clone()),
        Json::List(items) => Value::Array(items.iter().map(value_of).collect()),
        Json::Object(members) => Value::Object(
            members
                .iter()
                .map(|(key, value)| (key.clone(), value_of(value)))
                .collect(),
        ),
    }
}

fn encoded(form: &[(String, String)]) -> String {
    url::form_urlencoded::Serializer::new(String::new())
        .extend_pairs(form)
        .finish()
}

// -- mock Stripe -------------------------------------------------------------

#[derive(Default)]
struct MockStripe {
    /// (idempotency key, form) per create call.
    creates: Vec<(String, String)>,
    sessions: HashMap<String, Value>,
    charges: HashMap<String, Value>,
}

impl MockStripe {
    fn set_payment_status(&mut self, session_id: &str, payment_status: &str) {
        let session = self.sessions.get_mut(session_id).unwrap();
        session["payment_status"] = Value::String(payment_status.to_owned());
        if payment_status == "paid" {
            session["status"] = Value::String("complete".to_owned());
            session["payment_intent"] = Value::String(format!("pi_{session_id}"));
        }
    }

    fn answer(&mut self, call: &ApiCall, now: i64) -> (u16, Value) {
        match &call.credentials {
            Credentials::Bearer(token) => assert_eq!(token, "sk_test_unit"),
            other => panic!("{other:?}"),
        }
        let path = call.url.strip_prefix("https://stripe.test").unwrap();
        if let Some(id) = path.strip_prefix("/v1/checkout/sessions/") {
            assert_eq!(call.method, Method::Get);
            return self
                .sessions
                .get(id)
                .map_or((404, Value::Null), |session| (200, session.clone()));
        }
        if let Some(id) = path.strip_prefix("/v1/charges/") {
            assert_eq!(call.method, Method::Get);
            return self
                .charges
                .get(id)
                .map_or((404, Value::Null), |charge| (200, charge.clone()));
        }
        assert_eq!(path, "/v1/checkout/sessions");
        assert_eq!(call.method, Method::Post);
        let key = call.headers[0].1.clone();
        assert_eq!(call.headers[0].0, "Idempotency-Key");
        for (index, (known, _)) in self.creates.iter().enumerate() {
            if *known == key {
                let session = self.sessions[&format!("cs_test_{}", index + 1)].clone();
                return (200, session);
            }
        }
        let form = match &call.payload {
            Payload::Form(form) => form,
            other => panic!("{other:?}"),
        };
        let amount = &form
            .iter()
            .find(|(name, _)| name == "line_items[0][price_data][unit_amount]")
            .unwrap()
            .1;
        let id = format!("cs_test_{}", self.creates.len() + 1);
        let expires_at = now + 86_400;
        let session = json(&format!(
            r#"{{"id":"{id}","url":"https://checkout.stripe.test/c/pay/{id}","status":"open",
                "payment_status":"unpaid","amount_total":{amount},"currency":"usd",
                "expires_at":{expires_at}}}"#
        ));
        self.sessions.insert(id, session.clone());
        self.creates.push((key, encoded(form)));
        (200, session)
    }
}

fn session_of(value: &Value) -> CheckoutSession {
    CheckoutSession {
        id: text(&value["id"]).unwrap(),
        url: text(&value["url"]),
        payment_status: text(&value["payment_status"]),
        amount_total: value["amount_total"].as_i64(),
        currency: text(&value["currency"]),
        expires_at: value["expires_at"].as_i64(),
        payment_intent: text(&value["payment_intent"]),
    }
}

fn charge_of(value: &Value) -> Charge {
    Charge {
        refunded: value["refunded"].as_bool().unwrap_or(false),
        disputed: value["disputed"].as_bool().unwrap_or(false),
        payment_intent: text(&value["payment_intent"]),
    }
}

// -- mock PayPal ---------------------------------------------------------------

#[derive(Default)]
struct MockPaypal {
    /// (request id, body) per create-order call.
    creates: Vec<(String, Value)>,
    orders: HashMap<String, Value>,
    captures: HashMap<String, Value>,
    disputes: HashMap<String, Value>,
    capture_calls: u32,
    token_calls: u32,
    /// The order status that an explicit capture is answered with.
    captured_status: Option<String>,
}

impl MockPaypal {
    fn approve(&mut self, order_id: &str) {
        self.orders.get_mut(order_id).unwrap()["status"] = Value::String("APPROVED".to_owned());
    }

    fn complete(&mut self, order_id: &str) {
        let order = self.orders.get_mut(order_id).unwrap();
        order["status"] = Value::String("COMPLETED".to_owned());
        let amount = order["purchase_units"][0]["amount"].clone();
        let custom_id = order["purchase_units"][0]["custom_id"].clone();
        let capture = json(&format!(
            r#"{{"id":"ppcap_{order_id}","status":"COMPLETED","amount":{amount},"custom_id":{custom_id}}}"#
        ));
        order["purchase_units"][0]["payments"] = json(&format!(r#"{{"captures":[{capture}]}}"#));
        self.captures.insert(format!("ppcap_{order_id}"), capture);
    }

    fn set_capture_amount(&mut self, order_id: &str, value: &str) {
        let amount = Value::String(value.to_owned());
        self.orders.get_mut(order_id).unwrap()["purchase_units"][0]["payments"]["captures"][0]
            ["amount"]["value"] = amount.clone();
        self.captures.get_mut(&format!("ppcap_{order_id}")).unwrap()["amount"]["value"] = amount;
    }

    fn set_capture_status(&mut self, order_id: &str, status: &str) {
        self.captures.get_mut(&format!("ppcap_{order_id}")).unwrap()["status"] =
            Value::String(status.to_owned());
    }

    fn set_dispute(&mut self, dispute_id: &str, capture_id: &str) {
        self.disputes.insert(
            dispute_id.to_owned(),
            json(&format!(
                r#"{{"dispute_id":"{dispute_id}","status":"OPEN",
                    "disputed_transactions":[{{"seller_transaction_id":"{capture_id}"}}]}}"#
            )),
        );
    }

    fn found(map: &HashMap<String, Value>, id: &str) -> (u16, Value) {
        map.get(id)
            .map_or((404, Value::Null), |value| (200, value.clone()))
    }

    fn answer(&mut self, call: &ApiCall) -> (u16, Value) {
        let path = call.url.strip_prefix("https://paypal.test").unwrap();
        if path == "/v1/oauth2/token" {
            match &call.credentials {
                Credentials::Basic { user, password } => {
                    assert_eq!(user, "paypal_client_unit");
                    assert_eq!(password, "paypal_secret_unit");
                }
                other => panic!("{other:?}"),
            }
            match &call.payload {
                Payload::Form(form) => assert_eq!(encoded(form), "grant_type=client_credentials"),
                other => panic!("{other:?}"),
            }
            self.token_calls += 1;
            return (
                200,
                json(r#"{"access_token":"mock_paypal_token","expires_in":3600}"#),
            );
        }
        match &call.credentials {
            Credentials::Bearer(token) => assert_eq!(token, "mock_paypal_token"),
            other => panic!("{other:?}"),
        }
        if let Some(id) = path.strip_prefix("/v2/payments/captures/") {
            return Self::found(&self.captures, id);
        }
        if let Some(id) = path.strip_prefix("/v1/customer-disputes/") {
            return Self::found(&self.disputes, id);
        }
        if path == "/v1/notifications/verify-webhook-signature" {
            return match &call.payload {
                Payload::Verification(postback) => (200, self.verify(postback)),
                other => panic!("{other:?}"),
            };
        }
        if let Some(rest) = path.strip_prefix("/v2/checkout/orders/") {
            if let Some(id) = rest.strip_suffix("/capture") {
                assert_eq!(call.headers[0].1, format!("cap-{id}"));
                if self.orders[id]["status"] != "APPROVED" {
                    return (422, Value::Null);
                }
                self.capture_calls += 1;
                self.complete(id);
                let mut answer = self.orders[id].clone();
                if let Some(status) = &self.captured_status {
                    answer["status"] = Value::String(status.clone());
                }
                return (200, answer);
            }
            return Self::found(&self.orders, rest);
        }
        assert_eq!(path, "/v2/checkout/orders");
        assert_eq!(call.headers[0].0, "PayPal-Request-Id");
        assert_eq!(
            call.headers[1],
            ("Prefer".to_owned(), "return=representation".to_owned())
        );
        let request_id = call.headers[0].1.clone();
        for (index, (known, _)) in self.creates.iter().enumerate() {
            if *known == request_id {
                return Self::found(&self.orders, &format!("pporder_{}", index + 1));
            }
        }
        let body = match &call.payload {
            Payload::Document(document) => value_of(document),
            other => panic!("{other:?}"),
        };
        let id = format!("pporder_{}", self.creates.len() + 1);
        let amount = &body["purchase_units"][0]["amount"];
        let custom_id = &body["purchase_units"][0]["custom_id"];
        let order = json(&format!(
            r#"{{"id":"{id}","status":"CREATED",
                "purchase_units":[{{"custom_id":{custom_id},"amount":{amount}}}],
                "links":[
                  {{"rel":"self","href":"https://api.sandbox.paypal.test/v2/checkout/orders/{id}"}},
                  {{"rel":"payer-action","href":"https://sandbox.paypal.test/checkoutnow?token={id}"}}
                ]}}"#
        ));
        self.orders.insert(id, order.clone());
        self.creates.push((request_id, body));
        (200, order)
    }

    fn verify(&self, postback: &Postback) -> Value {
        let expected = paypal_mock_signature(
            &postback.transmission_id,
            &postback.transmission_time,
            &postback.webhook_id,
            postback.webhook_event.as_bytes(),
        );
        assert_eq!(postback.auth_algo, "SHA256withRSA");
        assert_eq!(
            postback.cert_url,
            "https://api.sandbox.paypal.test/cert.pem"
        );
        let genuine =
            postback.webhook_id == PAYPAL_WEBHOOK_ID && postback.transmission_sig == expected;
        Value::String(if genuine { "SUCCESS" } else { "FAILURE" }.to_owned())
    }
}

fn capture_of(value: &Value) -> Capture {
    Capture {
        id: text(&value["id"]).unwrap(),
        status: text(&value["status"]),
        amount: value.get("amount").map(|amount| Amount {
            currency_code: text(&amount["currency_code"]).unwrap(),
            value: text(&amount["value"]).unwrap(),
        }),
        custom_id: text(&value["custom_id"]),
    }
}

fn order_of(value: &Value) -> Order {
    let list = |value: &Value| value.as_array().cloned().unwrap_or_default();
    Order {
        id: text(&value["id"]).unwrap(),
        status: text(&value["status"]),
        links: list(&value["links"])
            .iter()
            .map(|link| Link {
                rel: text(&link["rel"]).unwrap(),
                href: text(&link["href"]).unwrap(),
            })
            .collect(),
        purchase_units: list(&value["purchase_units"])
            .iter()
            .map(|unit| PurchaseUnit {
                payments: unit.get("payments").map(|payments| Payments {
                    captures: list(&payments["captures"]).iter().map(capture_of).collect(),
                }),
            })
            .collect(),
    }
}

fn dispute_of(value: &Value) -> Dispute {
    Dispute {
        disputed_transactions: value["disputed_transactions"]
            .as_array()
            .unwrap()
            .iter()
            .map(|transaction| DisputedTransaction {
                seller_transaction_id: text(&transaction["seller_transaction_id"]),
            })
            .collect(),
    }
}

// -- harness -------------------------------------------------------------------

struct Harness {
    app: AppState,
    proxy: PaykitProxy,
    store: MemoryStore,
    tokens: TokenCache,
    criteria: HashMap<String, LockCriterion>,
    stripe_mock: MockStripe,
    paypal_mock: MockPaypal,
    /// (URL, signature, body) per forwarded call.
    forwards: Vec<(String, String, Vec<u8>)>,
    now: i64,
}

struct Response {
    status: u16,
    body: Value,
}

fn build_harness(delay: u64, with_stripe: bool, with_paypal: bool, webhook_id: bool) -> Harness {
    let mut criteria = HashMap::new();
    let bare = CREATOR.strip_prefix("pubky").unwrap();
    for (lock, asset, amount, recipient) in [
        ("usd", "USD", "1999", CREATOR),
        ("btc", "BTC", "15000", CREATOR),
        ("eur", "EUR", "500", CREATOR),
        ("usdbare", "USD", "1999", bare),
        ("usdother", "USD", "1999", READER),
        ("usdzero", "USD", "0", CREATOR),
    ] {
        criteria.insert(
            format!("{CREATOR}/pub/locks.app/{lock}.json"),
            LockCriterion {
                asset: asset.into(),
                amount: amount.into(),
                recipient_pubky: recipient.into(),
            },
        );
    }
    let processors = Processors {
        stripe: if with_stripe {
            Some(StripeProcessor::new(
                WebUrl::parse("https://stripe.test").unwrap(),
                "sk_test_unit".into(),
                Some(WEBHOOK_SECRET.into()),
            ))
        } else {
            None
        },
        paypal: if with_paypal {
            Some(PaypalProcessor::new(
                WebUrl::parse("https://paypal.test").unwrap(),
                "paypal_client_unit".into(),
                "paypal_secret_unit".into(),
                if webhook_id {
                    Some(PAYPAL_WEBHOOK_ID.to_owned())
                } else {
                    None
                },
            ))
        } else {
            None
        },
    };
    let default_processor = processors.effective_default("stripe").unwrap();
    Harness {
        app: AppState {
            trusted_key: TrustedKey::from_bytes(locks_key().verifying_key().to_bytes()).unwrap(),
            processors,
            default_processor,
            settlement_delay: Span::from_secs(delay),
            synthesized_confirmations: 1,
            allowed_assets: vec!["USD".into()],
            checkout_success_url: "https://app.test/success".into(),
            checkout_cancel_url: "https://app.test/cancel".into(),
            buyer_return_origins: vec![ORIGIN_A.into(), ORIGIN_B.into()],
        },
        proxy: PaykitProxy::new(WebUrl::parse("http://paykit.test:3001").unwrap()),
        store: MemoryStore::new(),
        tokens: TokenCache::new(),
        criteria,
        stripe_mock: MockStripe::default(),
        paypal_mock: MockPaypal::default(),
        forwards: Vec::new(),
        now: START,
    }
}

fn harness() -> Harness {
    build_harness(300, true, false, true)
}

fn harness_with_delay(delay: u64) -> Harness {
    build_harness(delay, true, false, true)
}

fn harness_paypal_only(delay: u64) -> Harness {
    build_harness(delay, false, true, true)
}

fn harness_dual(delay: u64) -> Harness {
    build_harness(delay, true, true, true)
}

fn record(
    processor: &'static str,
    session_id: &str,
    url: &str,
    expires_at: i64,
    attempt: i32,
    origin: Option<&str>,
) -> SessionRecord {
    SessionRecord {
        processor,
        session_id: session_id.to_owned(),
        checkout_url: url.to_owned(),
        checkout_expires_at: expires_at,
        session_attempt: attempt,
        return_origin: origin.map(str::to_owned),
    }
}

impl Harness {
    fn clock(&self) -> Timestamp {
        Timestamp::from_unix(self.now).unwrap()
    }

    fn row(&self) -> Correlation {
        self.store.get(CREATOR, BUNDLE).unwrap()
    }

    fn set_session(&mut self, session: SessionRecord) -> bool {
        self.store.set_session(CREATOR, BUNDLE, session)
    }

    fn stripe_call(&mut self, call: ApiCall) -> Result<Value, StripeError> {
        let (status, body) = self.stripe_mock.answer(&call, self.now);
        let body = StripeProcessor::parse(status, body.to_string())?;
        Ok(json(&body))
    }

    fn token(&mut self) -> String {
        let now = self.clock();
        if let Some(token) = self.tokens.access_token(now) {
            return token;
        }
        let call = self.app.processors.paypal.as_ref().unwrap().token_request();
        let (status, body) = self.paypal_mock.answer(&call);
        assert_eq!(status, 200);
        let response = TokenResponse {
            access_token: text(&body["access_token"]).unwrap(),
            expires_in: body["expires_in"].as_i64().unwrap(),
        };
        self.tokens.remember(&response, now);
        response.access_token
    }

    fn paypal_call(&mut self, call: ApiCall) -> Result<Value, PaypalError> {
        let (status, body) = self.paypal_mock.answer(&call);
        let body = PaypalProcessor::parse(status, body.to_string())?;
        Ok(json(&body))
    }

    fn perform(&mut self, action: Action) -> Event {
        if let Some(event) = self.store.perform(&action) {
            return event;
        }
        match action {
            Action::FetchCriterion { lock_resource } => Event::Criterion(
                self.criteria
                    .get(&lock_resource)
                    .cloned()
                    .ok_or(LockFetchError::NotFound),
            ),
            Action::CreateCheckoutSession(order) => {
                let call = self
                    .app
                    .processors
                    .stripe
                    .as_ref()
                    .unwrap()
                    .create_checkout_session(
                        &order.reference,
                        &order.idempotency_key,
                        order.amount_minor,
                        &order.currency,
                        order.product_name,
                        &order.success_url,
                        &order.cancel_url,
                    );
                Event::Session(self.stripe_call(call).map(|value| session_of(&value)))
            }
            Action::RetrieveSession { session_id } => {
                let stripe = self.app.processors.stripe.as_ref().unwrap();
                let call = stripe.retrieve_session(&session_id);
                Event::Session(self.stripe_call(call).map(|value| session_of(&value)))
            }
            Action::RetrieveCharge { charge_id } => {
                let stripe = self.app.processors.stripe.as_ref().unwrap();
                let call = stripe.retrieve_charge(&charge_id);
                Event::Charge(self.stripe_call(call).map(|value| charge_of(&value)))
            }
            Action::CreateOrder(order) => {
                let token = self.token();
                let call = self.app.processors.paypal.as_ref().unwrap().create_order(
                    &token,
                    &order.reference,
                    &order.idempotency_key,
                    order.amount_minor,
                    &order.currency,
                    order.product_name,
                    &order.success_url,
                    &order.cancel_url,
                );
                Event::Order(self.paypal_call(call).map(|value| order_of(&value)))
            }
            Action::RetrieveOrder { order_id } => {
                let token = self.token();
                let paypal = self.app.processors.paypal.as_ref().unwrap();
                let call = paypal.retrieve_order(&token, &order_id);
                Event::Order(self.paypal_call(call).map(|value| order_of(&value)))
            }
            Action::CaptureOrder {
                order_id,
                request_id,
            } => {
                let token = self.token();
                let paypal = self.app.processors.paypal.as_ref().unwrap();
                let call = paypal.capture_order(&token, &order_id, &request_id);
                Event::Order(self.paypal_call(call).map(|value| order_of(&value)))
            }
            Action::RetrieveCapture { capture_id } => {
                let token = self.token();
                let paypal = self.app.processors.paypal.as_ref().unwrap();
                let call = paypal.retrieve_capture(&token, &capture_id);
                Event::Capture(self.paypal_call(call).map(|value| capture_of(&value)))
            }
            Action::RetrieveDispute { dispute_id } => {
                let token = self.token();
                let paypal = self.app.processors.paypal.as_ref().unwrap();
                let call = paypal.retrieve_dispute(&token, &dispute_id);
                Event::Dispute(self.paypal_call(call).map(|value| dispute_of(&value)))
            }
            Action::VerifyWebhook(postback) => {
                let token = self.token();
                let paypal = self.app.processors.paypal.as_ref().unwrap();
                let call = paypal.verify_webhook(&token, postback);
                Event::Attested(
                    self.paypal_call(call)
                        .map(|value| is_attested(value.as_str().unwrap())),
                )
            }
            other => panic!("{other:?}"),
        }
    }

    fn answer(&mut self, reply: Reply) -> Response {
        match reply {
            Reply::NoContent => Response {
                status: 204,
                body: Value::Null,
            },
            Reply::Fault(error) => {
                let (status, code, message) = error.details();
                Response {
                    status,
                    body: json(&format!(
                        r#"{{"error":{{"code":"{code}","message":"{message}"}}}}"#
                    )),
                }
            }
            Reply::Status(status) => {
                let kind = match status.status {
                    StatusKind::Undetected => "undetected",
                    StatusKind::Detected => "detected",
                    StatusKind::Confirmed => "confirmed",
                };
                let (confirmations, matched) = (status.confirmations, status.amount_matched);
                Response {
                    status: 200,
                    body: json(&format!(
                        r#"{{"status":"{kind}","confirmations":{confirmations},"amount_matched":{matched}}}"#
                    )),
                }
            }
            Reply::Checkout(session) => {
                let (url, processor) = (&session.checkout_url, session.processor);
                let expires_at = session.expires_at;
                Response {
                    status: 200,
                    body: json(&format!(
                        r#"{{"checkout_url":"{url}","processor":"{processor}","expires_at":{expires_at}}}"#
                    )),
                }
            }
            Reply::Received { duplicate } => Response {
                status: 200,
                body: json(if duplicate {
                    r#"{"received":true,"duplicate":true}"#
                } else {
                    r#"{"received":true}"#
                }),
            },
            Reply::Forward {
                path,
                signature,
                body,
            } => {
                let url = self.proxy.endpoint(path);
                self.forwards.push((url.clone(), signature, body));
                let answer = if url.ends_with("/invoices") {
                    Answer {
                        status: 204,
                        content_type: None,
                        body: b"null".to_vec(),
                    }
                } else {
                    Answer {
                        status: 200,
                        content_type: Some("application/json".to_owned()),
                        body: br#"{"status":"detected","confirmations":0,"amount_matched":true}"#
                            .to_vec(),
                    }
                };
                match mirror(Some(answer)) {
                    Mirrored::Answer { status, body, .. } => Response {
                        status,
                        body: serde_json::from_slice(&body).unwrap(),
                    },
                    Mirrored::Fault(error) => panic!("{error:?}"),
                }
            }
        }
    }

    fn post_invoice(&mut self, headers: &Headers, body: &[u8]) -> Response {
        let mut turn = self.app.create_invoice(headers, body.to_vec());
        loop {
            match turn {
                Turn::Done(reply) => return self.answer(reply),
                Turn::Perform(flow, action) => {
                    let event = self.perform(action);
                    let now = self.clock();
                    turn = self.app.step_invoice(flow, &event, now);
                }
            }
        }
    }

    fn post_status(&mut self, headers: &Headers, body: &[u8]) -> Response {
        let mut turn = self.app.transaction_status(headers, body.to_vec());
        loop {
            match turn {
                Turn::Done(reply) => return self.answer(reply),
                Turn::Perform(flow, action) => {
                    let event = self.perform(action);
                    let now = self.clock();
                    turn = self.app.step_status(flow, &event, now);
                }
            }
        }
    }

    fn drive_checkout(&mut self, mut turn: Turn<Checkout, Reply>) -> Response {
        loop {
            match turn {
                Turn::Done(reply) => return self.answer(reply),
                Turn::Perform(flow, action) => {
                    let event = self.perform(action);
                    let now = self.clock();
                    turn = self.app.step_checkout(flow, &event, now);
                }
            }
        }
    }

    /// Runs a checkout request up to the creation of its session.
    fn parked_checkout(&mut self, processor: Option<&str>) -> (Checkout, Action) {
        let mut turn = self
            .app
            .checkout_session(true, Some(request(processor, None)));
        loop {
            match turn {
                Turn::Done(reply) => panic!("{reply:?}"),
                Turn::Perform(flow, action) => {
                    if matches!(
                        action,
                        Action::CreateCheckoutSession(_) | Action::CreateOrder(_)
                    ) {
                        return (flow, action);
                    }
                    let event = self.perform(action);
                    let now = self.clock();
                    turn = self.app.step_checkout(flow, &event, now);
                }
            }
        }
    }

    fn post_webhook(&mut self, processor: ProcessorKind, headers: &Headers, body: &[u8]) -> Response {
        let now = self.clock();
        let mut turn = match processor {
            ProcessorKind::Stripe => self.app.stripe_webhook(headers, body, now),
            ProcessorKind::Paypal => self.app.paypal_webhook(headers, body),
        };
        loop {
            match turn {
                Turn::Done(reply) => return self.answer(reply),
                Turn::Perform(flow, action) => {
                    let event = self.perform(action);
                    let now = self.clock();
                    turn = self.app.step_webhook(flow, &event, now);
                }
            }
        }
    }

    fn poll(&mut self) {
        let mut turn = worker::run();
        loop {
            match turn {
                Turn::Done(()) => return,
                Turn::Perform(flow, action) => {
                    let event = self.perform(action);
                    let now = self.clock();
                    turn = self.app.step_poll(flow, &event, now);
                }
            }
        }
    }

    fn invoice(&mut self, lock: &str, bundle: &str) -> u16 {
        let body = invoice_body(lock, bundle, READER);
        self.post_invoice(&signed(&body), &body).status
    }

    fn status(&mut self, bundle: &str) -> Value {
        let body = canonical(&format!(
            r#"{{"bundle_id":"{bundle}","creator":"{CREATOR}"}}"#
        ));
        self.post_status(&signed(&body), &body).body
    }

    fn send_webhook(&mut self, event: &str) -> Response {
        let payload = serde_json::to_vec(&json(event)).unwrap();
        let headers = headers(&[("stripe-signature", &webhook_signature(self.now, &payload))]);
        self.post_webhook(ProcessorKind::Stripe, &headers, &payload)
    }

    fn send_paypal_webhook_signed_over(&mut self, payload: &[u8], signed_over: &[u8]) -> Response {
        let id = format!("tx-{}", hex::encode(&Sha256::digest(payload)[..6]));
        let time = "2026-08-22T00:00:00Z";
        let signature = paypal_mock_signature(&id, time, PAYPAL_WEBHOOK_ID, signed_over);
        self.post_webhook(
            ProcessorKind::Paypal,
            &transmission(&id, time, &signature),
            payload,
        )
    }

    fn send_paypal_webhook(&mut self, event: &str) -> Response {
        let payload = serde_json::to_vec(&json(event)).unwrap();
        self.send_paypal_webhook_signed_over(&payload, &payload)
    }

    fn checkout(&mut self, processor: Option<&str>) -> Response {
        self.checkout_with_origin(processor, None)
    }

    fn checkout_with_origin(&mut self, processor: Option<&str>, origin: Option<&str>) -> Response {
        let turn = self
            .app
            .checkout_session(true, Some(request(processor, origin)));
        self.drive_checkout(turn)
    }
}

fn request(processor: Option<&str>, origin: Option<&str>) -> CheckoutSessionRequest {
    CheckoutSessionRequest {
        creator: CREATOR.to_owned(),
        bundle_id: BUNDLE.to_owned(),
        processor: processor.map(str::to_owned),
        return_origin: origin.map(str::to_owned),
    }
}

fn usd_row(bundle: &str) -> NewCorrelation {
    NewCorrelation {
        creator: CREATOR.into(),
        bundle_id: bundle.into(),
        lock_resource: format!("{CREATOR}/pub/locks.app/usd.json"),
        reader: READER.into(),
        asset: "USD".into(),
        amount_minor: 1999,
    }
}

fn headers(entries: &[(&str, &str)]) -> Headers {
    Headers {
        entries: entries
            .iter()
            .map(|(name, value)| ((*name).to_owned(), value.as_bytes().to_vec()))
            .collect(),
    }
}

fn signed(body: &[u8]) -> Headers {
    headers(&[("x-paykit-signature", &sign(&locks_key(), body))])
}

fn transmission(id: &str, time: &str, signature: &str) -> Headers {
    headers(&[
        ("paypal-transmission-id", id),
        ("paypal-transmission-time", time),
        ("paypal-transmission-sig", signature),
        (
            "paypal-cert-url",
            "https://api.sandbox.paypal.test/cert.pem",
        ),
        ("paypal-auth-algo", "SHA256withRSA"),
    ])
}

fn invoice_body(lock: &str, bundle: &str, reader: &str) -> Vec<u8> {
    canonical(&format!(
        r#"{{"bundle_id":"{bundle}","lock_resource":"{CREATOR}/pub/locks.app/{lock}.json","reader":"{reader}"}}"#
    ))
}

fn webhook_signature(timestamp: i64, payload: &[u8]) -> String {
    let mut mac = Hmac::<Sha256>::new_from_slice(WEBHOOK_SECRET.as_bytes()).unwrap();
    mac.update(timestamp.to_string().as_bytes());
    mac.update(b".");
    mac.update(payload);
    format!(
        "t={timestamp},v1={}",
        hex::encode(mac.finalize().into_bytes())
    )
}

fn completed(event_id: &str) -> String {
    format!(
        r#"{{"id":"{event_id}","type":"checkout.session.completed","data":{{"object":{{
            "id":"cs_test_1","client_reference_id":"{CREATOR}_{BUNDLE}","payment_status":"paid"}}}}}}"#
    )
}

fn capture_completed(event_id: &str, bundle: &str) -> String {
    format!(
        r#"{{"id":"{event_id}","event_type":"PAYMENT.CAPTURE.COMPLETED","resource":{{
            "id":"ppcap_pporder_1","status":"COMPLETED","custom_id":"{CREATOR}_{bundle}"}}}}"#
    )
}

fn refund(event_id: &str) -> String {
    format!(
        r#"{{"id":"{event_id}","event_type":"PAYMENT.CAPTURE.REFUNDED","resource":{{
            "id":"pprefund_1","status":"COMPLETED","links":[{{"rel":"up",
            "href":"https://api.sandbox.paypal.test/v2/payments/captures/ppcap_pporder_1"}}]}}}}"#
    )
}

fn undetected() -> Value {
    json(r#"{"status":"undetected","confirmations":0,"amount_matched":false}"#)
}

fn detected(matched: bool) -> Value {
    json(&format!(
        r#"{{"status":"detected","confirmations":0,"amount_matched":{matched}}}"#
    ))
}

fn confirmed() -> Value {
    json(r#"{"status":"confirmed","confirmations":1,"amount_matched":true}"#)
}

// -- tests ----------------------------------------------------------------------

#[test]
fn btc_invoice_is_proxied_verbatim_with_original_signature() {
    let mut harness = harness();
    let body = invoice_body("btc", BUNDLE, READER);
    let signature = sign(&locks_key(), &body);
    let response = harness.post_invoice(&signed(&body), &body);
    assert_eq!(response.status, 204);

    assert_eq!(harness.forwards.len(), 1);
    let (url, forwarded_signature, forwarded_body) = &harness.forwards[0];
    assert_eq!(url, "http://paykit.test:3001/invoices");
    assert_eq!(forwarded_signature, &signature);
    assert_eq!(forwarded_body, &body);
    assert!(harness.store.get(CREATOR, BUNDLE).is_none());
}

#[test]
fn unknown_status_is_proxied_to_paykit() {
    let mut harness = harness();
    let status = harness.status("UNKNOWNBUNDLE1");
    assert_eq!(status["status"], "detected");
    assert_eq!(harness.forwards.len(), 1);
    assert_eq!(
        harness.forwards[0].0,
        "http://paykit.test:3001/transactions/status"
    );
}

#[test]
fn unsigned_and_garbage_signed_requests_are_rejected() {
    let mut harness = harness();
    let body = invoice_body("usd", BUNDLE, READER);
    assert_eq!(harness.post_invoice(&headers(&[]), &body).status, 401);
    let garbage = URL_SAFE_NO_PAD.encode([0_u8; 64]);
    let garbage = headers(&[("x-paykit-signature", &garbage)]);
    assert_eq!(harness.post_invoice(&garbage, &body).status, 401);
    assert_eq!(harness.post_status(&garbage, &body).status, 401);
    assert!(harness.forwards.is_empty());
}

#[test]
fn usd_invoice_creates_idempotent_checkout_session() {
    let mut harness = harness();
    assert_eq!(harness.invoice("usd", BUNDLE), 204);

    // Exact replay: same identity, same terms -> 204, no second session.
    assert_eq!(harness.invoice("usd", BUNDLE), 204);
    assert_eq!(harness.stripe_mock.creates.len(), 1);

    let (idempotency_key, form) = harness.stripe_mock.creates[0].clone();
    assert!(idempotency_key.starts_with("fiatv1-"));
    assert!(form.contains("mode=payment"));
    assert!(form.contains("unit_amount%5D=1999"));
    assert!(form.contains("currency%5D=usd"));
    assert!(form.contains(&format!("client_reference_id={CREATOR}_{BUNDLE}")));

    let row = harness.row();
    assert_eq!(row.state, CorrelationState::Created);
    assert_eq!(row.session_id.as_deref(), Some("cs_test_1"));
    assert_eq!(row.amount_minor, 1999);
    // Nothing was proxied to the Paykit Server on the fiat path.
    assert!(harness.forwards.is_empty());
}

#[test]
fn same_bundle_with_different_terms_conflicts() {
    let mut harness = harness();
    assert_eq!(harness.invoice("usd", BUNDLE), 204);
    let conflicting = invoice_body("usd", BUNDLE, CREATOR);
    let response = harness.post_invoice(&signed(&conflicting), &conflicting);
    assert_eq!(response.status, 409);
}

#[test]
fn bare_z32_recipient_matches_prefixed_creator() {
    let mut harness = harness();
    assert_eq!(harness.invoice("usdbare", BUNDLE), 204);
    assert_eq!(harness.row().state, CorrelationState::Created);
}

#[test]
fn disallowed_fiat_asset_fails_the_submission() {
    let mut harness = harness();
    assert_eq!(harness.invoice("eur", BUNDLE), 400);
}

#[test]
fn invoice_refusals() {
    let mut harness = harness();
    assert_eq!(harness.invoice("missing", BUNDLE), 404);
    assert_eq!(harness.invoice("usdother", BUNDLE), 400);
    assert_eq!(harness.invoice("usdzero", BUNDLE), 400);
    assert_eq!(harness.invoice("usd", "not_valid"), 400);
    let body = invoice_body("usd", BUNDLE, "");
    assert_eq!(harness.post_invoice(&signed(&body), &body).status, 400);
    let body = b"{}";
    assert_eq!(harness.post_invoice(&signed(body), body).status, 400);
    let mut closed = build_harness(300, false, false, false);
    assert_eq!(closed.invoice("usd", BUNDLE), 503);
    assert!(closed.store.get(CREATOR, BUNDLE).is_none());
    assert_eq!(closed.invoice("btc", BUNDLE), 204);
}

#[test]
fn fiat_status_reports_undetected_until_the_pull_says_paid() {
    let mut harness = harness();
    assert_eq!(harness.invoice("usd", BUNDLE), 204);
    assert_eq!(harness.status(BUNDLE), undetected());
}

#[test]
fn webhook_hint_is_overruled_by_unpaid_pull() {
    let mut harness = harness();
    assert_eq!(harness.invoice("usd", BUNDLE), 204);

    // A webhook claims completion, but the API still says unpaid.
    // The pull wins: nothing moves.
    let response = harness.send_webhook(&completed("evt_lying_1"));
    assert_eq!(response.status, 200);

    assert_eq!(harness.row().state, CorrelationState::Created);
    assert_eq!(harness.status(BUNDLE)["status"], "undetected");
}

#[test]
fn paid_pull_detects_then_settlement_delay_confirms() {
    let mut harness = harness_with_delay(2);
    assert_eq!(harness.invoice("usd", BUNDLE), 204);

    // Payment happens at the processor; webhook arrives; the pull verifies.
    harness.stripe_mock.set_payment_status("cs_test_1", "paid");
    assert_eq!(harness.send_webhook(&completed("evt_real_1")).status, 200);

    // Inside the settlement delay: detected, never confirmed.
    assert_eq!(harness.status(BUNDLE), detected(true));
    harness.now += 1;
    assert_eq!(harness.status(BUNDLE), detected(true));

    // After the delay: the status call re-pulls and promotes.
    harness.now += 1;
    assert_eq!(harness.status(BUNDLE), confirmed());
    assert_eq!(harness.row().state, CorrelationState::Confirmed);
    assert_eq!(harness.row().confirmed_at, Some(harness.clock()));
    assert_eq!(harness.status(BUNDLE), confirmed());
}

#[test]
fn promotion_needs_a_fresh_paid_pull() {
    let mut harness = harness_with_delay(2);
    assert_eq!(harness.invoice("usd", BUNDLE), 204);
    harness.stripe_mock.set_payment_status("cs_test_1", "paid");
    assert_eq!(harness.status(BUNDLE), detected(true));
    harness.now += 5;
    harness.stripe_mock.set_payment_status("cs_test_1", "unpaid");
    assert_eq!(harness.status(BUNDLE), detected(true));
    harness.stripe_mock.sessions.clear();
    assert_eq!(harness.status(BUNDLE), detected(true));
    assert_eq!(harness.row().state, CorrelationState::Paid);
}

#[test]
fn duplicate_webhook_events_are_deduplicated() {
    let mut harness = harness();
    assert_eq!(harness.invoice("usd", BUNDLE), 204);
    let event = completed("evt_dup");
    let first = harness.send_webhook(&event).body;
    assert_eq!(first, json(r#"{"received":true}"#));
    let second = harness.send_webhook(&event).body;
    assert_eq!(second, json(r#"{"received":true,"duplicate":true}"#));
}

#[test]
fn webhook_with_bad_signature_is_rejected() {
    let mut harness = harness();
    let payload = br#"{"id":"evt_x","type":"t"}"#;
    let bad = headers(&[("stripe-signature", "t=1,v1=deadbeef")]);
    let response = harness.post_webhook(ProcessorKind::Stripe, &bad, payload);
    assert_eq!(response.status, 401);
    let none = headers(&[]);
    let response = harness.post_webhook(ProcessorKind::Stripe, &none, payload);
    assert_eq!(response.status, 401);
}

#[test]
fn signed_webhook_without_an_identity_is_rejected() {
    let mut harness = harness();
    assert_eq!(harness.send_webhook(r#"{"id":"evt_x"}"#).status, 400);
    assert_eq!(harness.send_webhook(r#"{"type":"t","id":7}"#).status, 400);
    let other = harness.send_webhook(r#"{"id":"evt_o","type":"other"}"#);
    assert_eq!(other.body, json(r#"{"received":true}"#));
    let mut closed = harness_paypal_only(300);
    assert_eq!(closed.send_webhook(r#"{"id":"evt_x","type":"t"}"#).status, 503);
}

#[test]
fn detection_works_without_webhooks_via_status_poll() {
    let mut harness = harness();
    assert_eq!(harness.invoice("usd", BUNDLE), 204);
    harness.stripe_mock.set_payment_status("cs_test_1", "paid");
    // No webhook at all: the Lock Server's own status poll triggers the pull.
    let status = harness.status(BUNDLE);
    assert_eq!(status["status"], "detected");
    assert_eq!(status["amount_matched"], true);
}

#[test]
fn amount_mismatch_is_reported_and_never_promotes() {
    let mut harness = harness_with_delay(0);
    assert_eq!(harness.invoice("usd", BUNDLE), 204);
    harness.stripe_mock.set_payment_status("cs_test_1", "paid");
    harness.stripe_mock.sessions.get_mut("cs_test_1").unwrap()["amount_total"] = json("1");
    assert_eq!(harness.status(BUNDLE), detected(false));
    // Even with a zero delay it must not confirm.
    let status = harness.status(BUNDLE);
    assert_eq!(status["status"], "detected");
    assert_eq!(status["amount_matched"], false);
}

#[test]
fn checkout_sessions_returns_url_and_reminting_only_after_expiry() {
    let mut harness = harness();
    assert_eq!(harness.invoice("usd", BUNDLE), 204);

    let first = harness.checkout(None).body;
    assert_eq!(
        first["checkout_url"],
        "https://checkout.stripe.test/c/pay/cs_test_1"
    );
    assert_eq!(first["processor"], "stripe");

    // Same live session on repeat.
    let repeat = harness.checkout(None).body;
    assert_eq!(repeat["checkout_url"], first["checkout_url"]);
    assert_eq!(harness.stripe_mock.creates.len(), 1);

    // Force expiry -> replacement is minted with a new idempotency key.
    let url = text(&first["checkout_url"]).unwrap();
    assert!(harness.set_session(record("stripe", "cs_test_1", &url, 1, 1, None)));
    let reminted = harness.checkout(None).body;
    assert_eq!(
        reminted["checkout_url"],
        "https://checkout.stripe.test/c/pay/cs_test_2"
    );
    assert_eq!(harness.stripe_mock.creates.len(), 2);
    assert_ne!(
        harness.stripe_mock.creates[0].0,
        harness.stripe_mock.creates[1].0
    );
}

#[test]
fn a_session_is_replaced_within_the_slack_of_its_expiry() {
    let mut harness = harness();
    assert_eq!(harness.invoice("usd", BUNDLE), 204);
    harness.now += 86_400 - 61;
    assert_eq!(harness.checkout(None).status, 200);
    assert_eq!(harness.stripe_mock.creates.len(), 1);
    harness.now += 1;
    assert_eq!(harness.checkout(None).status, 200);
    assert_eq!(harness.stripe_mock.creates.len(), 2);
}

#[test]
fn checkout_sessions_unknown_bundle_is_404_and_paid_conflicts() {
    let mut harness = harness_with_delay(600);
    let mut unknown = request(None, None);
    unknown.bundle_id = "NOPE1".to_owned();
    let turn = harness.app.checkout_session(true, Some(unknown));
    assert_eq!(harness.drive_checkout(turn).status, 404);

    assert_eq!(harness.invoice("usd", BUNDLE), 204);
    harness.stripe_mock.set_payment_status("cs_test_1", "paid");
    let _ = harness.status(BUNDLE); // detection pull
    assert_eq!(harness.checkout(None).status, 409);
}

#[test]
fn checkout_refusals() {
    let mut harness = harness();
    let turn = harness.app.checkout_session(false, Some(request(None, None)));
    assert_eq!(harness.drive_checkout(turn).status, 429);
    let turn = harness.app.checkout_session(true, None);
    assert_eq!(harness.drive_checkout(turn).status, 400);
    let mut bad = request(None, None);
    bad.creator = String::new();
    let turn = harness.app.checkout_session(true, Some(bad));
    assert_eq!(harness.drive_checkout(turn).status, 400);
    let mut closed = build_harness(300, false, false, false);
    assert_eq!(closed.checkout(None).status, 503);
    // Bound to a processor that is no longer configured.
    harness.store.insert_new(usd_row(BUNDLE));
    assert!(harness.set_session(record("paypal", "x", "https://x.test", 1, 1, None)));
    assert_eq!(harness.checkout(None).status, 503);
}

#[test]
fn checkout_on_a_processor_that_is_not_configured_is_unavailable() {
    let mut harness = harness_paypal_only(300);
    harness.store.insert_new(usd_row(BUNDLE));
    assert_eq!(harness.checkout(Some("stripe")).status, 503);
    assert!(harness.row().session_id.is_none());
    assert_eq!(harness.checkout(Some("paypal")).status, 200);
}

#[test]
fn a_lock_that_says_bitcoin_has_no_checkout() {
    let mut harness = harness();
    harness.store.insert_new(NewCorrelation {
        creator: CREATOR.into(),
        bundle_id: BUNDLE.into(),
        lock_resource: format!("{CREATOR}/pub/locks.app/btc.json"),
        reader: READER.into(),
        asset: "BTC".into(),
        amount_minor: 1,
    });
    assert_eq!(harness.checkout(None).status, 404);
    assert_eq!(harness.status(BUNDLE)["status"], "detected");
    assert_eq!(harness.forwards.len(), 1);
}

#[test]
fn a_row_without_a_session_is_minted_on_replay() {
    let mut harness = harness();
    harness.store.insert_new(usd_row(BUNDLE));
    assert_eq!(harness.invoice("usd", BUNDLE), 204);
    assert_eq!(harness.row().session_attempt, 1);
    assert_eq!(harness.stripe_mock.creates.len(), 1);
}

#[test]
fn a_session_is_served_whatever_its_attempt() {
    let mut harness = harness();
    assert_eq!(harness.invoice("usd", BUNDLE), 204);
    let expires_at = START + 86_400;
    assert!(harness.set_session(record("stripe", "s", "https://x.test", expires_at, i32::MAX, None)));
    assert_eq!(harness.checkout(None).body["checkout_url"], "https://x.test");
    assert_eq!(harness.invoice("usd", BUNDLE), 204);
    assert_eq!(harness.stripe_mock.creates.len(), 1);
}

#[test]
fn verified_reversal_blocks_promotion() {
    let mut harness = harness_with_delay(0);
    assert_eq!(harness.invoice("usd", BUNDLE), 204);
    harness.stripe_mock.set_payment_status("cs_test_1", "paid");
    let status = harness.status(BUNDLE); // detect + record payment_intent
    assert!(status["status"] == "confirmed" || status["status"] == "detected");

    // Reset to a paid-but-not-yet-confirmed shape for the reversal test.
    let mut harness = harness_with_delay(600);
    assert_eq!(harness.invoice("usd", BUNDLE), 204);
    harness.stripe_mock.set_payment_status("cs_test_1", "paid");
    let _ = harness.status(BUNDLE); // detected; payment_intent = pi_cs_test_1
    harness.stripe_mock.charges.insert(
        "ch_reversed".into(),
        json(
            r#"{"id":"ch_reversed","refunded":true,"disputed":false,
                "payment_intent":"pi_cs_test_1"}"#,
        ),
    );
    let event = r#"{"id":"evt_reversal","type":"charge.refunded","data":{"object":{"id":"ch_reversed"}}}"#;
    assert_eq!(harness.send_webhook(event).status, 200);

    assert_eq!(harness.row().state, CorrelationState::Reversed);
    assert_eq!(harness.status(BUNDLE)["status"], "undetected");
}

#[test]
fn uncorroborated_charge_reversal_is_ignored() {
    let mut harness = harness_with_delay(600);
    assert_eq!(harness.invoice("usd", BUNDLE), 204);
    harness.stripe_mock.set_payment_status("cs_test_1", "paid");
    let _ = harness.status(BUNDLE);
    harness.stripe_mock.charges.insert(
        "ch".into(),
        json(r#"{"id":"ch","refunded":false,"payment_intent":"pi_cs_test_1"}"#),
    );
    let event = r#"{"id":"evt_1","type":"charge.dispute.created","data":{"object":{"id":"ch"}}}"#;
    assert_eq!(harness.send_webhook(event).status, 200);
    assert_eq!(harness.row().state, CorrelationState::Paid);
}

#[test]
fn health_reports_ok() {
    let harness = harness();
    let health = harness.app.health(true);
    assert_eq!(health.status(), "ok");
    assert_eq!(health.status_code(), 200);
    assert!(health.stripe_enabled);
    assert!(health.stripe_webhook_configured);
    assert!(!health.paypal_enabled);
    assert!(!health.paypal_webhook_configured);
    assert_eq!(health.default_processor, "stripe");
    let degraded = harness.app.health(false);
    assert_eq!(degraded.status(), "degraded");
    assert_eq!(degraded.status_code(), 503);
}

// -- PayPal leg -------------------------------------------------------------------

#[test]
fn paypal_only_invoice_mints_order_eagerly_and_idempotently() {
    let mut harness = harness_paypal_only(300);
    assert_eq!(harness.invoice("usd", BUNDLE), 204);

    // Exact replay: same identity, same terms -> 204, no second order.
    assert_eq!(harness.invoice("usd", BUNDLE), 204);
    assert_eq!(harness.paypal_mock.creates.len(), 1);

    let (request_id, body) = harness.paypal_mock.creates[0].clone();
    assert!(request_id.starts_with("fiatv1-"));
    assert_eq!(body["intent"], "CAPTURE");
    assert_eq!(
        body["processing_instruction"],
        "ORDER_COMPLETE_ON_PAYMENT_APPROVAL"
    );
    assert_eq!(
        body["purchase_units"][0]["custom_id"],
        format!("{CREATOR}_{BUNDLE}")
    );
    assert_eq!(body["purchase_units"][0]["amount"]["currency_code"], "USD");
    assert_eq!(body["purchase_units"][0]["amount"]["value"], "19.99");

    let row = harness.row();
    assert_eq!(row.state, CorrelationState::Created);
    assert_eq!(row.processor.as_deref(), Some("paypal"));
    assert_eq!(row.session_id.as_deref(), Some("pporder_1"));
    assert_eq!(row.checkout_expires_at, Some(START + 10_800));

    let checkout = harness.checkout(None).body;
    assert_eq!(checkout["processor"], "paypal");
    assert_eq!(
        checkout["checkout_url"],
        "https://sandbox.paypal.test/checkoutnow?token=pporder_1"
    );
}

#[test]
fn dual_processor_invoice_defers_mint_and_checkout_binds_default() {
    let mut harness = harness_dual(300);
    assert_eq!(harness.invoice("usd", BUNDLE), 204);

    // Both processors configured: no session yet, the buyer chooses.
    let row = harness.row();
    assert!(row.session_id.is_none());
    assert!(row.processor.is_none());
    assert!(harness.stripe_mock.creates.is_empty());
    assert!(harness.paypal_mock.creates.is_empty());

    // No processor named -> deployment default (stripe).
    let checkout = harness.checkout(None).body;
    assert_eq!(checkout["processor"], "stripe");
    assert_eq!(harness.row().processor.as_deref(), Some("stripe"));

    // The binding is permanent: asking for paypal afterwards conflicts.
    assert_eq!(harness.checkout(Some("paypal")).status, 409);

    // Asking for the bound processor returns the same live session.
    let repeat = harness.checkout(Some("stripe")).body;
    assert_eq!(repeat["checkout_url"], checkout["checkout_url"]);
}

#[test]
fn dual_processor_checkout_can_choose_paypal() {
    let mut harness = harness_dual(300);
    assert_eq!(harness.invoice("usd", BUNDLE), 204);

    let checkout = harness.checkout(Some("paypal")).body;
    assert_eq!(checkout["processor"], "paypal");
    assert_eq!(
        checkout["checkout_url"],
        "https://sandbox.paypal.test/checkoutnow?token=pporder_1"
    );
    assert!(harness.stripe_mock.creates.is_empty());

    // Idempotent repeat, and stripe is now a conflicting choice.
    let repeat = harness.checkout(Some("paypal")).body;
    assert_eq!(repeat["checkout_url"], checkout["checkout_url"]);
    assert_eq!(harness.paypal_mock.creates.len(), 1);
    assert_eq!(harness.checkout(Some("stripe")).status, 409);
}

#[test]
fn checkout_rejects_unknown_processor_value() {
    let mut harness = harness_dual(300);
    assert_eq!(harness.invoice("usd", BUNDLE), 204);
    assert_eq!(harness.checkout(Some("venmo")).status, 400);
}

#[test]
fn paypal_full_lifecycle_approval_webhook_capture_then_settlement() {
    let mut harness = harness_paypal_only(2);
    assert_eq!(harness.invoice("usd", BUNDLE), 204);

    // Buyer approves at PayPal; the auto-capture has not landed yet, so the
    // pull observes APPROVED and captures explicitly (capture-on-approval).
    harness.paypal_mock.approve("pporder_1");
    let event = format!(
        r#"{{"id":"WH-EVT-APPROVED-1","event_type":"CHECKOUT.ORDER.APPROVED","resource":{{
            "id":"pporder_1","status":"APPROVED",
            "purchase_units":[{{"custom_id":"{CREATOR}_{BUNDLE}"}}]}}}}"#
    );
    assert_eq!(harness.send_paypal_webhook(&event).status, 200);
    assert_eq!(harness.paypal_mock.capture_calls, 1);

    // Inside the settlement delay: detected, never confirmed.
    assert_eq!(harness.status(BUNDLE), detected(true));
    let row = harness.row();
    assert_eq!(row.state, CorrelationState::Paid);
    assert_eq!(row.payment_intent.as_deref(), Some("ppcap_pporder_1"));

    // After the delay: the status call re-pulls and promotes.
    harness.now += 2;
    assert_eq!(harness.status(BUNDLE), confirmed());
}

#[test]
fn paypal_detection_works_without_webhooks_via_status_poll() {
    let mut harness = harness_paypal_only(300);
    assert_eq!(harness.invoice("usd", BUNDLE), 204);
    // PayPal auto-captured on approval; no webhook at all: the Lock Server's
    // own status poll triggers the pull.
    harness.paypal_mock.complete("pporder_1");
    let status = harness.status(BUNDLE);
    assert_eq!(status["status"], "detected");
    assert_eq!(status["amount_matched"], true);
}

#[test]
fn paypal_webhook_hint_is_overruled_by_unpaid_pull() {
    let mut harness = harness_paypal_only(300);
    assert_eq!(harness.invoice("usd", BUNDLE), 204);

    // A webhook claims a completed capture, but the order pull still says
    // CREATED. The pull wins: nothing moves.
    let event = capture_completed("WH-EVT-LIE-1", BUNDLE);
    assert_eq!(harness.send_paypal_webhook(&event).status, 200);
    assert_eq!(harness.row().state, CorrelationState::Created);
    assert_eq!(harness.status(BUNDLE)["status"], "undetected");
}

#[test]
fn paypal_webhook_with_wrong_signature_is_rejected() {
    let mut harness = harness_paypal_only(300);
    assert_eq!(harness.invoice("usd", BUNDLE), 204);
    harness.paypal_mock.complete("pporder_1");

    let payload = capture_completed("WH-EVT-BADSIG", BUNDLE);
    let forged = transmission("tx-forged", "2026-08-22T00:00:00Z", "deadbeef");
    let response = harness.post_webhook(ProcessorKind::Paypal, &forged, payload.as_bytes());
    assert_eq!(response.status, 401);
    // A rejected webhook schedules nothing: state is untouched even though
    // the order is genuinely paid (the next verified pull will catch it).
    assert_eq!(harness.row().state, CorrelationState::Created);
}

#[test]
fn paypal_webhook_with_tampered_body_fails_postback_verification() {
    let mut harness = harness_paypal_only(300);
    assert_eq!(harness.invoice("usd", BUNDLE), 204);

    let genuine = capture_completed("WH-EVT-TAMPER", BUNDLE);
    let tampered = capture_completed("WH-EVT-TAMPER", "OTHERBUNDLE1");
    // Signature covers the genuine bytes; the delivered body differs.
    let response =
        harness.send_paypal_webhook_signed_over(tampered.as_bytes(), genuine.as_bytes());
    assert_eq!(response.status, 401);
}

#[test]
fn paypal_webhook_fails_closed_without_configuration() {
    // Stripe-only deployment: the PayPal webhook path answers 503.
    let mut harness = harness();
    let response = harness.post_webhook(ProcessorKind::Paypal, &headers(&[]), b"{}");
    assert_eq!(response.status, 503);

    // PayPal configured but no webhook id: also 503 (poll-only detection).
    let mut harness = build_harness(300, false, true, false);
    let response = harness.post_webhook(ProcessorKind::Paypal, &headers(&[]), b"{}");
    assert_eq!(response.status, 503);
}

#[test]
fn paypal_webhook_needs_its_headers_and_json() {
    let mut harness = harness_paypal_only(300);
    let response = harness.post_webhook(ProcessorKind::Paypal, &headers(&[]), b"{}");
    assert_eq!(response.status, 401);
    assert_eq!(harness.send_paypal_webhook_signed_over(b"no", b"no").status, 503);
    assert_eq!(
        harness
            .send_paypal_webhook_signed_over(&[0xff], &[0xff])
            .status,
        503
    );
    assert_eq!(harness.send_paypal_webhook(r#"{"id":"x"}"#).status, 400);
    // White space around the event is not part of what is sent back.
    let event = br#"{"event_type":"OTHER","id":"spaced"}"#;
    let spaced = [b" ".as_slice(), event, b"\n".as_slice()].concat();
    assert_eq!(harness.send_paypal_webhook_signed_over(&spaced, event).status, 200);
}

#[test]
fn paypal_amount_mismatch_is_reported_and_never_promotes() {
    let mut harness = harness_paypal_only(0);
    assert_eq!(harness.invoice("usd", BUNDLE), 204);
    harness.paypal_mock.complete("pporder_1");
    harness.paypal_mock.set_capture_amount("pporder_1", "0.01");

    assert_eq!(harness.status(BUNDLE), detected(false));
    // Even with a zero delay it must not confirm.
    let status = harness.status(BUNDLE);
    assert_eq!(status["status"], "detected");
    assert_eq!(status["amount_matched"], false);
}

#[test]
fn paypal_refund_reversal_blocks_promotion() {
    let mut harness = harness_paypal_only(600);
    assert_eq!(harness.invoice("usd", BUNDLE), 204);
    harness.paypal_mock.complete("pporder_1");
    let _ = harness.status(BUNDLE); // detected; payment ref = ppcap_pporder_1
    harness
        .paypal_mock
        .set_capture_status("pporder_1", "REFUNDED");

    // The refund event's resource is the refund, linking up to the capture.
    assert_eq!(
        harness.send_paypal_webhook(&refund("WH-EVT-REFUND-1")).status,
        200
    );

    assert_eq!(harness.row().state, CorrelationState::Reversed);
    assert_eq!(harness.status(BUNDLE)["status"], "undetected");
}

#[test]
fn paypal_reversal_webhook_not_corroborated_by_pull_is_ignored() {
    let mut harness = harness_paypal_only(600);
    assert_eq!(harness.invoice("usd", BUNDLE), 204);
    harness.paypal_mock.complete("pporder_1");
    let _ = harness.status(BUNDLE); // detected

    // Refund webhook, but the capture pull still says COMPLETED: ignored.
    assert_eq!(
        harness
            .send_paypal_webhook(&refund("WH-EVT-REFUND-FAKE"))
            .status,
        200
    );
    assert_eq!(harness.row().state, CorrelationState::Paid);
}

#[test]
fn paypal_dispute_marks_correlation_reversed() {
    let mut harness = harness_paypal_only(600);
    assert_eq!(harness.invoice("usd", BUNDLE), 204);
    harness.paypal_mock.complete("pporder_1");
    let _ = harness.status(BUNDLE); // detected; payment ref persisted
    harness.paypal_mock.set_dispute("PP-D-1", "ppcap_pporder_1");

    let event = r#"{"id":"WH-EVT-DISPUTE-1","event_type":"CUSTOMER.DISPUTE.CREATED","resource":{
        "dispute_id":"PP-D-1","disputed_transactions":[{"seller_transaction_id":"ppcap_pporder_1"}]}}"#;
    assert_eq!(harness.send_paypal_webhook(event).status, 200);

    assert_eq!(harness.row().state, CorrelationState::Reversed);
    assert_eq!(harness.status(BUNDLE)["status"], "undetected");
}

#[test]
fn every_disputed_transaction_is_followed() {
    let mut harness = harness_paypal_only(600);
    assert_eq!(harness.invoice("usd", BUNDLE), 204);
    harness.paypal_mock.complete("pporder_1");
    let _ = harness.status(BUNDLE);
    harness.paypal_mock.disputes.insert(
        "PP-D-2".into(),
        json(
            r#"{"disputed_transactions":[{"seller_transaction_id":"unknown"},{},
                {"seller_transaction_id":"ppcap_pporder_1"}]}"#,
        ),
    );
    let event = r#"{"id":"E","event_type":"CUSTOMER.DISPUTE.CREATED","resource":{"dispute_id":"PP-D-2"}}"#;
    assert_eq!(harness.send_paypal_webhook(event).status, 200);
    assert_eq!(harness.row().state, CorrelationState::Reversed);
}

#[test]
fn paypal_duplicate_webhook_events_are_deduplicated() {
    let mut harness = harness_paypal_only(300);
    assert_eq!(harness.invoice("usd", BUNDLE), 204);
    let event = format!(
        r#"{{"id":"WH-EVT-DUP","event_type":"CHECKOUT.ORDER.APPROVED","resource":{{
            "purchase_units":[{{"custom_id":"{CREATOR}_{BUNDLE}"}}]}}}}"#
    );
    let first = harness.send_paypal_webhook(&event).body;
    assert_eq!(first, json(r#"{"received":true}"#));
    let second = harness.send_paypal_webhook(&event).body;
    assert_eq!(second, json(r#"{"received":true,"duplicate":true}"#));
}

#[test]
fn paypal_checkout_remints_on_the_same_processor_after_expiry() {
    let mut harness = harness_paypal_only(300);
    assert_eq!(harness.invoice("usd", BUNDLE), 204);
    let first = harness.checkout(None).body;

    // Force expiry -> replacement is minted, still on paypal.
    let url = text(&first["checkout_url"]).unwrap();
    assert!(harness.set_session(record("paypal", "pporder_1", &url, 1, 1, None)));
    let reminted = harness.checkout(None).body;
    assert_eq!(reminted["processor"], "paypal");
    assert_eq!(
        reminted["checkout_url"],
        "https://sandbox.paypal.test/checkoutnow?token=pporder_2"
    );
    assert_eq!(harness.paypal_mock.creates.len(), 2);
}

#[test]
fn paypal_health_reports_processor_flags() {
    let harness = harness_paypal_only(300);
    let health = harness.app.health(true);
    assert!(!health.stripe_enabled);
    assert!(health.paypal_enabled);
    assert!(health.paypal_webhook_configured);
    assert_eq!(health.default_processor, "paypal");
}

#[test]
fn the_default_processor_is_a_choice_only_between_two() {
    let dual = harness_dual(300);
    assert_eq!(
        dual.app.processors.effective_default("paypal"),
        Some(ProcessorKind::Paypal)
    );
    assert_eq!(dual.app.processors.effective_default("other"), None);
    let single = harness();
    assert_eq!(
        single.app.processors.effective_default("paypal"),
        Some(ProcessorKind::Stripe)
    );
}

#[test]
fn paypal_tokens_are_cached_until_shortly_before_expiry() {
    let mut harness = harness_paypal_only(300);
    assert_eq!(harness.invoice("usd", BUNDLE), 204);
    assert_eq!(harness.paypal_mock.token_calls, 1);
    harness.now += 3_539;
    let _ = harness.status(BUNDLE);
    assert_eq!(harness.paypal_mock.token_calls, 1);
    harness.now += 1;
    let _ = harness.status(BUNDLE);
    assert_eq!(harness.paypal_mock.token_calls, 2);
}

// -- buyer return origins -----------------------------------------------------

#[test]
fn stripe_checkout_with_allowlisted_origin_derives_return_urls() {
    let mut harness = harness();
    assert_eq!(harness.invoice("usd", BUNDLE), 204);

    let checkout = harness.checkout_with_origin(None, Some(ORIGIN_A));
    assert_eq!(checkout.status, 200);

    // Stripe received the server-side derived URLs (form-encoded).
    // [0] is the eager fallback mint at invoice time.
    let form = harness.stripe_mock.creates[1].1.clone();
    assert!(
        form.contains("success_url=https%3A%2F%2Fshop.pubky.app%2Fmarketplace%3Fcheckout%3Dreturn"),
        "form was: {form}"
    );
    assert!(
        form.contains("cancel_url=https%3A%2F%2Fshop.pubky.app%2Fmarketplace%3Fcheckout%3Dcancel"),
        "form was: {form}"
    );

    // The origin is persisted alongside the session.
    assert_eq!(harness.row().return_origin.as_deref(), Some(ORIGIN_A));
}

#[test]
fn paypal_checkout_with_allowlisted_origin_derives_return_urls() {
    let mut harness = harness_paypal_only(300);
    assert_eq!(harness.invoice("usd", BUNDLE), 204);

    let checkout = harness.checkout_with_origin(None, Some(ORIGIN_B));
    assert_eq!(checkout.status, 200);

    let (_, body) = &harness.paypal_mock.creates[1]; // [0] is the eager fallback mint
    let context = &body["payment_source"]["paypal"]["experience_context"];
    assert_eq!(
        context["return_url"],
        format!("{ORIGIN_B}/marketplace?checkout=return")
    );
    assert_eq!(
        context["cancel_url"],
        format!("{ORIGIN_B}/marketplace?checkout=cancel")
    );
}

#[test]
fn checkout_rejects_origins_off_the_allowlist() {
    let mut harness = harness();
    assert_eq!(harness.invoice("usd", BUNDLE), 204);
    for origin in [
        "https://unknown-shop.example.com", // unknown origin
        "https://shop.pubky.app.evil.com",  // lookalike host
        "http://shop.pubky.app",            // not https
        "https://shop.pubky.app/marketplace?checkout=return", // full URL, not an origin
        "https://shop.pubky.app/",          // trailing slash is not exact
    ] {
        let response = harness.checkout_with_origin(None, Some(origin));
        assert_eq!(response.status, 400, "origin: {origin}");
        assert_eq!(response.body["error"]["code"], "invalid_return_origin");
    }
    // Nothing was minted or bound by the rejected requests.
    assert_eq!(harness.stripe_mock.creates.len(), 1);
    assert_eq!(harness.row().return_origin, None);
}

#[test]
fn checkout_without_origin_uses_the_static_fallback_urls() {
    let mut harness = harness();
    assert_eq!(harness.invoice("usd", BUNDLE), 204);
    assert_eq!(harness.checkout(None).status, 200);

    assert_eq!(harness.stripe_mock.creates.len(), 1); // the eager mint, no re-mint
    let (_, form) = &harness.stripe_mock.creates[0];
    assert!(form.contains("success_url=https%3A%2F%2Fapp.test%2Fsuccess"));
    assert!(form.contains("cancel_url=https%3A%2F%2Fapp.test%2Fcancel"));
}

#[test]
fn bound_origin_is_persistent_and_immutable() {
    let mut harness = harness();
    assert_eq!(harness.invoice("usd", BUNDLE), 204);

    // Bind ORIGIN_A.
    let first = harness.checkout_with_origin(None, Some(ORIGIN_A)).body;
    assert_eq!(harness.row().return_origin.as_deref(), Some(ORIGIN_A));

    // A different origin conflicts; the same origin returns the live session.
    let switched = harness.checkout_with_origin(None, Some(ORIGIN_B));
    assert_eq!(switched.status, 409);
    let repeat = harness.checkout_with_origin(None, Some(ORIGIN_A)).body;
    assert_eq!(repeat["checkout_url"], first["checkout_url"]);

    // Force expiry, then re-fetch WITHOUT an origin: the re-mint keeps the
    // bound origin — a later request can never change it back. (The direct
    // write must name the bound origin: the conditional persist rejects an
    // origin-less write over an origin-bound row.)
    let url = text(&first["checkout_url"]).unwrap();
    assert!(!harness.set_session(record("stripe", "cs_test_2", &url, 1, 2, None)));
    assert!(harness.set_session(record("stripe", "cs_test_2", &url, 1, 2, Some(ORIGIN_A))));
    let reminted = harness.checkout(None).body;
    assert_eq!(
        reminted["checkout_url"],
        "https://checkout.stripe.test/c/pay/cs_test_3"
    );
    let form = harness.stripe_mock.creates.last().unwrap().1.clone();
    assert!(
        form.contains("success_url=https%3A%2F%2Fshop.pubky.app%2Fmarketplace%3Fcheckout%3Dreturn"),
        "form was: {form}"
    );
    assert_eq!(harness.row().return_origin.as_deref(), Some(ORIGIN_A));
}

// A no-origin mint that read the row before a concurrent origin-A mint
// persisted must never clobber the A binding with its static-fallback session.
#[test]
fn stripe_concurrent_fallback_mint_cannot_clobber_an_origin_binding() {
    let mut harness = harness();
    assert_eq!(harness.invoice("usd", BUNDLE), 204);

    // Force expiry so both racers decide to mint (row still origin-less).
    let row = harness.row();
    let (id, url) = (row.session_id.unwrap(), row.checkout_url.unwrap());
    assert!(
        harness.set_session(record("stripe", &id, &url, 1, 1, None)),
        "origin-less write onto an unbound row must apply"
    );

    let (loser, pending) = harness.parked_checkout(None);

    // Bump the stored attempt so the winner's mint carries a distinct
    // idempotency key.
    assert!(harness.set_session(record("stripe", &id, &url, 1, 2, None)));

    // The winner mints with ORIGIN_A and persists first, binding A.
    let winner = harness.checkout_with_origin(None, Some(ORIGIN_A)).body;
    assert_eq!(
        winner["checkout_url"],
        "https://checkout.stripe.test/c/pay/cs_test_2"
    );
    let winner_form = harness.stripe_mock.creates[1].1.clone();
    assert!(
        winner_form
            .contains("success_url=https%3A%2F%2Fshop.pubky.app%2Fmarketplace%3Fcheckout%3Dreturn"),
        "form was: {winner_form}"
    );

    // The loser's fallback-URL mint now persists last — and must lose.
    let loser_response = harness.drive_checkout(Turn::Perform(loser, pending));
    assert_eq!(loser_response.status, 200);
    assert_eq!(loser_response.body["checkout_url"], winner["checkout_url"]);

    // The loser's mint really carried the static fallback URLs — it was
    // minted against them, yet never persisted and never served.
    let loser_form = harness.stripe_mock.creates[2].1.clone();
    assert!(
        loser_form.contains("success_url=https%3A%2F%2Fapp.test%2Fsuccess"),
        "form was: {loser_form}"
    );

    // Invariant: return_origin=A can only ever coexist with A-derived URLs.
    let row = harness.row();
    assert_eq!(row.return_origin.as_deref(), Some(ORIGIN_A));
    assert_eq!(
        row.checkout_url.as_deref(),
        Some("https://checkout.stripe.test/c/pay/cs_test_2")
    );
    assert_eq!(row.session_id.as_deref(), Some("cs_test_2"));
}

// Same interleaving, but the winning session has already expired when the
// loser re-reads: nothing valid to serve, so the loser gets a conflict.
#[test]
fn stripe_concurrent_fallback_mint_over_expired_binding_conflicts() {
    let mut harness = harness();
    assert_eq!(harness.invoice("usd", BUNDLE), 204);

    let row = harness.row();
    let (id, url) = (row.session_id.unwrap(), row.checkout_url.unwrap());
    assert!(harness.set_session(record("stripe", &id, &url, 1, 1, None)));
    let (loser, pending) = harness.parked_checkout(None);
    assert!(harness.set_session(record("stripe", &id, &url, 1, 2, None)));
    let winner = harness.checkout_with_origin(None, Some(ORIGIN_A)).body;

    // Expire the just-bound session before the loser's persist lands.
    let won = text(&winner["checkout_url"]).unwrap();
    assert!(
        harness.set_session(record("stripe", "cs_test_2", &won, 1, 2, Some(ORIGIN_A))),
        "a write naming the bound origin must apply"
    );

    let loser_response = harness.drive_checkout(Turn::Perform(loser, pending));
    assert_eq!(loser_response.status, 409);
    assert_eq!(loser_response.body["error"]["code"], "invoice_conflict");

    // The row is untouched by the loser: still A-bound with A-derived URLs.
    let row = harness.row();
    assert_eq!(row.return_origin.as_deref(), Some(ORIGIN_A));
    assert_eq!(
        row.checkout_url.as_deref(),
        Some("https://checkout.stripe.test/c/pay/cs_test_2")
    );
}

// Same race on the PayPal leg.
#[test]
fn paypal_concurrent_fallback_mint_cannot_clobber_an_origin_binding() {
    let mut harness = harness_paypal_only(300);
    assert_eq!(harness.invoice("usd", BUNDLE), 204);

    let row = harness.row();
    let (id, url) = (row.session_id.unwrap(), row.checkout_url.unwrap());
    assert!(harness.set_session(record("paypal", &id, &url, 1, 1, None)));
    let (loser, pending) = harness.parked_checkout(None);
    assert!(harness.set_session(record("paypal", &id, &url, 1, 2, None)));

    let winner = harness.checkout_with_origin(None, Some(ORIGIN_A)).body;
    assert_eq!(
        winner["checkout_url"],
        "https://sandbox.paypal.test/checkoutnow?token=pporder_2"
    );
    let context = |body: &Value| body["payment_source"]["paypal"]["experience_context"].clone();
    assert_eq!(
        context(&harness.paypal_mock.creates[1].1)["return_url"],
        format!("{ORIGIN_A}/marketplace?checkout=return")
    );

    let loser_response = harness.drive_checkout(Turn::Perform(loser, pending));
    assert_eq!(loser_response.status, 200);
    assert_eq!(loser_response.body["checkout_url"], winner["checkout_url"]);

    // The loser's minted order carried the static fallback URLs.
    assert_eq!(
        context(&harness.paypal_mock.creates[2].1)["return_url"],
        "https://app.test/success"
    );

    let row = harness.row();
    assert_eq!(row.return_origin.as_deref(), Some(ORIGIN_A));
    assert_eq!(
        row.checkout_url.as_deref(),
        Some("https://sandbox.paypal.test/checkoutnow?token=pporder_2")
    );
    assert_eq!(row.session_id.as_deref(), Some("pporder_2"));
}

// A plain sequential no-origin re-fetch on an A-bound correlation keeps
// returning the A session.
#[test]
fn no_origin_refetch_on_bound_correlation_returns_the_bound_session() {
    let mut harness = harness();
    assert_eq!(harness.invoice("usd", BUNDLE), 204);

    let first = harness.checkout_with_origin(None, Some(ORIGIN_A)).body;
    let refetch = harness.checkout(None);
    assert_eq!(refetch.status, 200);
    assert_eq!(refetch.body["checkout_url"], first["checkout_url"]);

    // No re-mint: eager + A-binding mint only.
    assert_eq!(harness.stripe_mock.creates.len(), 2);
    assert_eq!(harness.row().return_origin.as_deref(), Some(ORIGIN_A));
}

// -- slow poll ------------------------------------------------------------------

#[test]
fn poll_detects_and_confirms_after_the_delay() {
    let mut harness = harness_with_delay(10);
    assert_eq!(harness.invoice("usd", BUNDLE), 204);
    assert_eq!(harness.invoice("usd", "OTHERBUNDLE1"), 204);
    harness.poll();
    assert_eq!(harness.row().state, CorrelationState::Created);
    harness.stripe_mock.set_payment_status("cs_test_1", "paid");
    harness.stripe_mock.set_payment_status("cs_test_2", "paid");
    harness.poll();
    assert_eq!(harness.row().state, CorrelationState::Paid);
    harness.now += 9;
    harness.poll();
    assert_eq!(harness.row().state, CorrelationState::Paid);
    harness.now += 1;
    harness.poll();
    assert_eq!(harness.row().state, CorrelationState::Confirmed);
    let other = harness.store.get(CREATOR, "OTHERBUNDLE1").unwrap();
    assert_eq!(other.state, CorrelationState::Confirmed);
    assert!(harness.store.open_fiat_correlations().is_empty());
}

#[test]
fn poll_does_not_confirm_an_unpaid_or_mismatched_session() {
    let mut harness = harness_with_delay(0);
    assert_eq!(harness.invoice("usd", BUNDLE), 204);
    harness.stripe_mock.set_payment_status("cs_test_1", "paid");
    harness.stripe_mock.sessions.get_mut("cs_test_1").unwrap()["currency"] =
        Value::String("eur".to_owned());
    harness.poll();
    harness.poll();
    let row = harness.row();
    assert_eq!(row.state, CorrelationState::Paid);
    assert!(!row.amount_matched);
}

#[test]
fn poll_skips_rows_of_an_absent_processor_and_goes_on() {
    let mut harness = harness_with_delay(0);
    harness.store.insert_new(usd_row("BUNDLE1"));
    let gone = record("paypal", "order", "https://x.test", 1, 1, None);
    assert!(harness.store.set_session(CREATOR, "BUNDLE1", gone));
    assert_eq!(harness.invoice("usd", "BUNDLE2"), 204);
    assert_eq!(harness.invoice("usd", "BUNDLE3"), 204);
    harness.stripe_mock.sessions.remove("cs_test_1");
    harness.stripe_mock.set_payment_status("cs_test_2", "paid");
    harness.poll();
    let state = |bundle: &str| harness.store.get(CREATOR, bundle).unwrap().state;
    assert_eq!(state("BUNDLE1"), CorrelationState::Created);
    assert_eq!(state("BUNDLE2"), CorrelationState::Created);
    assert_eq!(state("BUNDLE3"), CorrelationState::Confirmed);
}

#[test]
fn signature_text_is_the_first_of_the_header() {
    let found = signature_string(&headers(&[("x-paykit-signature", "a"), ("x-paykit-signature", "b")]));
    assert_eq!(found.unwrap(), "a");
    assert_eq!(
        signature_string(&headers(&[("other", "a")])).unwrap_err().details().0,
        401
    );
}

// Two first checkouts choose different processors: the one that is recorded
// second must not rebind the row.
#[test]
fn concurrent_checkouts_cannot_rebind_the_processor() {
    let mut harness = harness_dual(300);
    assert_eq!(harness.invoice("usd", BUNDLE), 204);
    let (loser, pending) = harness.parked_checkout(Some("paypal"));
    let winner = harness.checkout(Some("stripe")).body;
    assert_eq!(winner["processor"], "stripe");

    let response = harness.drive_checkout(Turn::Perform(loser, pending));
    assert_eq!(response.status, 200);
    assert_eq!(response.body, winner);
    assert_eq!(harness.paypal_mock.creates.len(), 1);
    let row = harness.row();
    assert_eq!(row.processor.as_deref(), Some("stripe"));
    assert_eq!(row.session_id.as_deref(), Some("cs_test_1"));
}

#[test]
fn a_captured_order_must_be_completed_itself() {
    let mut harness = harness_paypal_only(300);
    assert_eq!(harness.invoice("usd", BUNDLE), 204);
    harness.paypal_mock.approve("pporder_1");
    harness.paypal_mock.captured_status = Some("APPROVED".to_owned());
    assert_eq!(harness.status(BUNDLE), undetected());
    assert_eq!(harness.paypal_mock.capture_calls, 1);
    assert_eq!(harness.row().state, CorrelationState::Created);
    // The next pull reads the order as completed.
    assert_eq!(harness.status(BUNDLE), detected(true));
}

#[test]
fn checkout_refuses_a_nested_blob_as_origin() {
    let mut harness = harness();
    assert_eq!(harness.invoice("usd", BUNDLE), 204);
    let nested = "blob:".repeat(13_000);
    let response = harness.checkout_with_origin(None, Some(&nested));
    assert_eq!(response.status, 400);
    assert_eq!(response.body["error"]["code"], "invalid_return_origin");
}

#[test]
fn only_a_mint_needs_another_attempt() {
    let mut harness = harness();
    harness.store.insert_new(usd_row(BUNDLE));
    let live = START + 86_400;
    assert!(harness.set_session(record("stripe", "s", "https://x.test", live, i32::MAX, None)));
    let start = |harness: &Harness| {
        match harness.app.checkout_session(true, Some(request(None, None))) {
            Turn::Perform(flow, _) => flow,
            Turn::Done(reply) => panic!("{reply:?}"),
        }
    };
    let flow = start(&harness);
    let served = Event::Row(Ok(Some(harness.row())));
    assert!(harness.app.can_step_checkout(&flow, &served, harness.clock()));
    harness.now = live;
    assert!(!harness.app.can_step_checkout(&flow, &served, harness.clock()));
    let mut fresh = harness.row();
    fresh.session_attempt = 1;
    let fresh = Event::Row(Ok(Some(fresh)));
    assert!(harness.app.can_step_checkout(&flow, &fresh, harness.clock()));
    let mut paid = harness.row();
    paid.state = CorrelationState::Paid;
    let paid = Event::Row(Ok(Some(paid)));
    assert!(harness.app.can_step_checkout(&flow, &paid, harness.clock()));
}

#[test]
fn a_replay_needs_an_attempt_only_without_a_session() {
    let mut harness = harness();
    let body = invoice_body("usd", BUNDLE, READER);
    harness.store.insert_new(usd_row(BUNDLE));
    let mut turn = harness.app.create_invoice(&signed(&body), body.clone());
    let replaying = loop {
        match turn {
            Turn::Perform(flow @ Invoice::Replaying(_), _) => break flow,
            Turn::Perform(flow, action) => {
                let event = harness.perform(action);
                let now = harness.clock();
                turn = harness.app.step_invoice(flow, &event, now);
            }
            Turn::Done(reply) => panic!("{reply:?}"),
        }
    };
    let mut row = harness.row();
    row.session_attempt = i32::MAX;
    let bare = Event::Row(Ok(Some(row.clone())));
    assert!(!harness.app.can_step_invoice(&replaying, &bare));
    row.session_id = Some("s".to_owned());
    let with_session = Event::Row(Ok(Some(row)));
    assert!(harness.app.can_step_invoice(&replaying, &with_session));
}

#[test]
fn attested_events_need_an_identity() {
    let event = |document: &str| parse_json(document.as_bytes());
    match judge_paypal_event(&event(r#"{"id":"e","event_type":"t"}"#)) {
        Turn::Perform(
            _,
            Action::RecordWebhookEvent {
                event_id,
                event_type,
            },
        ) => {
            assert_eq!(event_id, "e");
            assert_eq!(event_type, "t");
        }
        _ => panic!("the event is recorded"),
    }
    for document in [event(r#"{"id":"e"}"#), None] {
        match judge_paypal_event(&document) {
            Turn::Done(Reply::Fault(error)) => assert_eq!(error.details().0, 400),
            _ => panic!("the event is refused"),
        }
    }
}
