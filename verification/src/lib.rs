//! A payment verifier gateway for content locks.
//!
//! A Lock Server asks the gateway to open an invoice and, later, whether it was
//! paid. Bitcoin invoices go on to a Paykit Server as they came. Fiat invoices
//! become correlations, with a hosted checkout on Stripe or PayPal, and advance
//! only on what a fresh read of the processor's API establishes: webhooks are
//! hints, and a payment is confirmed only after it has rested for a settlement
//! delay and was read as paid once more.
//!
//! The endpoints are flows ([`effects`]): values that ask for one action at a
//! time and are handed the answer. [`invoice`], [`status`], [`checkout`],
//! [`webhooks`] and [`worker`] are the flows, built on [`verification`] and
//! [`mint`]; [`memory`] says what a correlation store does and answers;
//! [`store_laws`] and [`flow_laws`] say what holds of it all, and the other
//! modules of laws what each operation is for: [`payment_laws`],
//! [`settlement_laws`], [`webhook_laws`], [`paypal_webhook_laws`],
//! [`checkout_laws`], [`invoice_laws`], [`request_laws`], [`config_laws`] and
//! [`text_laws`].

pub mod api_call;
pub mod auth;
pub mod checkout;
pub mod checkout_laws;
pub mod clock;
pub mod config;
pub mod config_laws;
pub mod crypto;
pub mod decimal;
pub mod effects;
pub mod error;
pub mod flow_laws;
pub mod http;
pub mod invoice;
pub mod invoice_laws;
pub mod json;
pub mod lock_fetch;
pub mod memory;
pub mod mint;
pub mod money;
pub mod payment_laws;
pub mod paypal;
pub mod paypal_webhook_laws;
pub mod proxy;
pub mod rate_limit;
pub mod request_laws;
pub mod settlement_laws;
pub mod state;
pub mod status;
pub mod store;
pub mod store_laws;
pub mod stripe;
pub mod text;
pub mod text_laws;
pub mod verification;
pub mod web_url;
pub mod webhook_laws;
pub mod webhooks;
pub mod wire;
pub mod worker;
