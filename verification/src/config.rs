//! Environment-driven configuration. Live mode is fail-closed.

use crate::api_call;
use crate::auth::TrustedKey;
use crate::clock::Span;
use crate::crypto;
use crate::decimal;
use crate::decimal::IntFault;
use crate::text;
use crate::verification;
use crate::web_url;
use crate::web_url::UrlModel;
use crate::web_url::UrlParts;
use crate::web_url::WebUrl;
use vstd::prelude::*;

verus! {

#[derive(Clone, Debug)]
pub enum ConfigError {
    /// A required variable is missing.
    Missing(&'static str),
    /// A variable is invalid, and why.
    Invalid(&'static str, String),
    /// A live Stripe key without live mode.
    LiveKeyWithoutLiveMode,
    /// A PayPal host that is not the sandbox, without live mode.
    LivePaypalWithoutLiveMode,
}

pub enum ConfigErrorModel {
    Missing(Seq<char>),
    Invalid(Seq<char>, Seq<char>),
    LiveKeyWithoutLiveMode,
    LivePaypalWithoutLiveMode,
}

impl View for ConfigError {
    type V = ConfigErrorModel;

    open spec fn view(&self) -> ConfigErrorModel {
        match self {
            ConfigError::Missing(name) => ConfigErrorModel::Missing(name@),
            ConfigError::Invalid(name, reason) => ConfigErrorModel::Invalid(name@, reason@),
            ConfigError::LiveKeyWithoutLiveMode => ConfigErrorModel::LiveKeyWithoutLiveMode,
            ConfigError::LivePaypalWithoutLiveMode => ConfigErrorModel::LivePaypalWithoutLiveMode,
        }
    }
}

impl ConfigError {
    /// The error as shown to an operator.
    pub fn message(&self) -> (message: String)
        ensures
            message@ == (match self@ {
                ConfigErrorModel::Missing(name) => name + " is required"@,
                ConfigErrorModel::Invalid(name, reason) => name + " is invalid: "@ + reason,
                ConfigErrorModel::LiveKeyWithoutLiveMode =>
                    "STRIPE_SECRET_KEY looks like a LIVE key; refusing to start without FIAT_LIVE_MODE=true (staging is test-mode only by design)"@,
                ConfigErrorModel::LivePaypalWithoutLiveMode =>
                    "PAYPAL_API_BASE is not the PayPal sandbox; refusing to start without FIAT_LIVE_MODE=true (staging is sandbox-only by design)"@,
            }),
    {
        match self {
            ConfigError::Missing(name) => text::joined(name, " is required"),
            ConfigError::Invalid(name, reason) => text::joined(
                &text::joined(name, " is invalid: "),
                reason,
            ),
            ConfigError::LiveKeyWithoutLiveMode =>
                "STRIPE_SECRET_KEY looks like a LIVE key; refusing to start without FIAT_LIVE_MODE=true (staging is test-mode only by design)".to_owned(),
            ConfigError::LivePaypalWithoutLiveMode =>
                "PAYPAL_API_BASE is not the PayPal sandbox; refusing to start without FIAT_LIVE_MODE=true (staging is sandbox-only by design)".to_owned(),
        }
    }
}

#[derive(Debug)]
pub struct StripeConfig {
    pub secret_key: String,
    /// Webhook signing secret. Without it the webhook endpoint fails closed and
    /// payment observation relies on the API poll.
    pub webhook_secret: Option<String>,
    pub api_base: WebUrl,
}

pub struct StripeConfigModel {
    pub secret_key: Seq<char>,
    pub webhook_secret: Option<Seq<char>>,
    pub api_base: Seq<char>,
}

impl View for StripeConfig {
    type V = StripeConfigModel;

    open spec fn view(&self) -> StripeConfigModel {
        StripeConfigModel {
            secret_key: self.secret_key@,
            webhook_secret: text::text_opt(self.webhook_secret),
            api_base: self.api_base@,
        }
    }
}

#[derive(Debug)]
pub struct PaypalConfig {
    pub client_id: String,
    pub client_secret: String,
    /// Webhook id. Without it the webhook endpoint fails closed and payment
    /// observation relies on the API poll.
    pub webhook_id: Option<String>,
    pub api_base: WebUrl,
}

pub struct PaypalConfigModel {
    pub client_id: Seq<char>,
    pub client_secret: Seq<char>,
    pub webhook_id: Option<Seq<char>>,
    pub api_base: Seq<char>,
}

impl View for PaypalConfig {
    type V = PaypalConfigModel;

    open spec fn view(&self) -> PaypalConfigModel {
        PaypalConfigModel {
            client_id: self.client_id@,
            client_secret: self.client_secret@,
            webhook_id: text::text_opt(self.webhook_id),
            api_base: self.api_base@,
        }
    }
}

#[derive(Debug)]
pub struct Config {
    pub bind_addr: String,
    /// The one Lock Server identity whose signature authenticates the signed
    /// endpoints.
    pub trusted_locks_public_key: TrustedKey,
    /// The Paykit Server: Bitcoin criteria are handed on to it.
    pub paykit_server_url: WebUrl,
    pub database_url: String,
    pub stripe: Option<StripeConfig>,
    pub paypal: Option<PaypalConfig>,
    /// Processor used when a checkout request names none and both are
    /// configured (`stripe` | `paypal`).
    pub default_processor: String,
    /// How long a paid checkout must rest before it is reported `confirmed`.
    pub settlement_delay: Span,
    /// Reported as `confirmations` once the settlement delay has elapsed.
    pub synthesized_confirmations: u32,
    /// Slow-poll interval for open fiat correlations.
    pub poll_interval: Span,
    /// Criterion assets accepted on the fiat path.
    pub allowed_assets: Vec<String>,
    /// Redirect targets of checkout requests that carry no return origin.
    pub checkout_success_url: String,
    pub checkout_cancel_url: String,
    /// Exact `https://` origins a checkout request may name.
    pub buyer_return_origins: Vec<String>,
    /// Largest content-lock document that is fetched.
    pub lock_resource_max_bytes: u64,
    pub lock_fetch_timeout: Span,
    pub checkout_rate_per_second: u64,
    pub checkout_rate_burst: u64,
}

pub struct ConfigModel {
    pub bind_addr: Seq<char>,
    pub trusted_locks_public_key: Seq<u8>,
    pub paykit_server_url: Seq<char>,
    pub database_url: Seq<char>,
    pub stripe: Option<StripeConfigModel>,
    pub paypal: Option<PaypalConfigModel>,
    pub default_processor: Seq<char>,
    pub settlement_delay: int,
    pub synthesized_confirmations: int,
    pub poll_interval: int,
    pub allowed_assets: Seq<Seq<char>>,
    pub checkout_success_url: Seq<char>,
    pub checkout_cancel_url: Seq<char>,
    pub buyer_return_origins: Seq<Seq<char>>,
    pub lock_resource_max_bytes: int,
    pub lock_fetch_timeout: int,
    pub checkout_rate_per_second: int,
    pub checkout_rate_burst: int,
}

impl View for Config {
    type V = ConfigModel;

    open spec fn view(&self) -> ConfigModel {
        ConfigModel {
            bind_addr: self.bind_addr@,
            trusted_locks_public_key: self.trusted_locks_public_key@,
            paykit_server_url: self.paykit_server_url@,
            database_url: self.database_url@,
            stripe: match self.stripe {
                Some(stripe) => Some(stripe@),
                None => None,
            },
            paypal: match self.paypal {
                Some(paypal) => Some(paypal@),
                None => None,
            },
            default_processor: self.default_processor@,
            settlement_delay: self.settlement_delay@,
            synthesized_confirmations: self.synthesized_confirmations as int,
            poll_interval: self.poll_interval@,
            allowed_assets: text::texts(self.allowed_assets@),
            checkout_success_url: self.checkout_success_url@,
            checkout_cancel_url: self.checkout_cancel_url@,
            buyer_return_origins: text::texts(self.buyer_return_origins@),
            lock_resource_max_bytes: self.lock_resource_max_bytes as int,
            lock_fetch_timeout: self.lock_fetch_timeout@,
            checkout_rate_per_second: self.checkout_rate_per_second as int,
            checkout_rate_burst: self.checkout_rate_burst as int,
        }
    }
}

/// The value of the first variable of that name.
pub open spec fn variable(vars: Seq<(Seq<char>, Seq<char>)>, name: Seq<char>) -> Option<Seq<char>>
    decreases vars.len(),
{
    if vars.len() == 0 {
        None
    } else if vars[0].0 == name {
        Some(vars[0].1)
    } else {
        variable(vars.skip(1), name)
    }
}

/// The value of a variable, or a default.
pub open spec fn variable_or(
    vars: Seq<(Seq<char>, Seq<char>)>,
    name: Seq<char>,
    default: Seq<char>,
) -> Seq<char> {
    match variable(vars, name) {
        Some(value) => value,
        None => default,
    }
}

/// The trimmed value of a variable, unless nothing is left of it.
pub open spec fn optional_value(vars: Seq<(Seq<char>, Seq<char>)>, name: Seq<char>) -> Option<
    Seq<char>,
> {
    match variable(vars, name) {
        Some(value) => if text::trim(value).len() > 0 {
            Some(text::trim(value))
        } else {
            None
        },
        None => None,
    }
}

/// The trimmed value of a variable that must be there.
pub open spec fn required_value(vars: Seq<(Seq<char>, Seq<char>)>, name: Seq<char>) -> Result<
    Seq<char>,
    ConfigErrorModel,
> {
    match optional_value(vars, name) {
        Some(value) => Ok(value),
        None => Err(ConfigErrorModel::Missing(name)),
    }
}

/// What is said of a numeral that was refused.
pub open spec fn fault_text(fault: IntFault) -> Seq<char> {
    match fault {
        IntFault::Empty => "cannot parse integer from empty string"@,
        IntFault::InvalidDigit => "invalid digit found in string"@,
        IntFault::TooLarge => "number too large to fit in target type"@,
    }
}

/// The number that a variable holds, or a default.
pub open spec fn number_value(
    vars: Seq<(Seq<char>, Seq<char>)>,
    name: Seq<char>,
    default: int,
) -> Result<int, ConfigErrorModel> {
    match variable(vars, name) {
        Some(value) => match decimal::unsigned_value(text::trim(value), u64::MAX as nat) {
            Ok(number) => Ok(number as int),
            Err(fault) => Err(ConfigErrorModel::Invalid(name, fault_text(fault))),
        },
        None => Ok(default),
    }
}

/// The address to listen on.
pub open spec fn bind_addr_value(vars: Seq<(Seq<char>, Seq<char>)>) -> Seq<char> {
    match variable(vars, "FIAT_LISTEN_ADDR"@) {
        Some(addr) => addr,
        None => match variable(vars, "PORT"@) {
            Some(port) => "[::]:"@ + port,
            None => "[::]:3002"@,
        },
    }
}

/// The key that a text is the canonical spelling of, given what the text parses
/// into.
pub open spec fn exact_key(
    value: Seq<char>,
    parsed: Result<(Seq<char>, Seq<u8>), Seq<char>>,
) -> Result<Seq<u8>, ConfigErrorModel> {
    let name = "FIAT_TRUSTED_LOCKS_PUBLIC_KEY"@;
    match parsed {
        Err(fault) => Err(ConfigErrorModel::Invalid(name, fault)),
        Ok((spelling, bytes)) => if spelling != value {
            Err(
                ConfigErrorModel::Invalid(
                    name,
                    "must be the canonical pubky-prefixed spelling"@,
                ),
            )
        } else {
            match crypto::key_fault(bytes) {
                Some(fault) => Err(ConfigErrorModel::Invalid(name, fault)),
                None => Ok(bytes),
            }
        },
    }
}

/// The key that a text is the canonical spelling of.
pub open spec fn trusted_key(value: Seq<char>) -> Result<Seq<u8>, ConfigErrorModel> {
    exact_key(value, crypto::parsed_public_key(value))
}

/// The pinned Lock Server key.
pub open spec fn trusted_key_value(vars: Seq<(Seq<char>, Seq<char>)>) -> Result<
    Seq<u8>,
    ConfigErrorModel,
> {
    match required_value(vars, "FIAT_TRUSTED_LOCKS_PUBLIC_KEY"@) {
        Ok(value) => trusted_key(value),
        Err(error) => Err(error),
    }
}

/// The URL that a variable holds, or a default, with its parts.
pub open spec fn url_value(
    vars: Seq<(Seq<char>, Seq<char>)>,
    name: Seq<char>,
    default: Seq<char>,
) -> Result<(Seq<char>, UrlModel), ConfigErrorModel> {
    let value = variable_or(vars, name, default);
    match web_url::parsed_url(value) {
        Ok(parts) => Ok((value, parts)),
        Err(fault) => Err(ConfigErrorModel::Invalid(name, fault)),
    }
}

/// The URL of the Paykit Server.
pub open spec fn paykit_value(vars: Seq<(Seq<char>, Seq<char>)>) -> Result<
    Seq<char>,
    ConfigErrorModel,
> {
    let name = "FIAT_PAYKIT_SERVER_URL"@;
    match url_value(vars, name, "http://paykit-server.railway.internal:3001"@) {
        Ok((value, parts)) => if parts.scheme == "http"@ || parts.scheme == "https"@ {
            Ok(value)
        } else {
            Err(ConfigErrorModel::Invalid(name, "must be http(s)"@))
        },
        Err(error) => Err(error),
    }
}

/// Whether live mode is on: the variable is exactly `true`.
pub open spec fn live_mode(vars: Seq<(Seq<char>, Seq<char>)>) -> bool {
    variable(vars, "FIAT_LIVE_MODE"@) == Some("true"@)
}

/// Whether a Stripe key looks like a live key.
pub open spec fn looks_live(key: Seq<char>) -> bool {
    text::has_prefix(key, "sk_live"@) || text::has_prefix(key, "rk_live"@)
}

/// The Stripe configuration, if a key is configured.
pub open spec fn stripe_value(vars: Seq<(Seq<char>, Seq<char>)>) -> Result<
    Option<StripeConfigModel>,
    ConfigErrorModel,
> {
    match optional_value(vars, "STRIPE_SECRET_KEY"@) {
        None => Ok(None),
        Some(secret_key) => if looks_live(secret_key) && !live_mode(vars) {
            Err(ConfigErrorModel::LiveKeyWithoutLiveMode)
        } else {
            match url_value(vars, "STRIPE_API_BASE"@, "https://api.stripe.com"@) {
                Err(error) => Err(error),
                Ok((api_base, _)) => Ok(
                    Some(
                        StripeConfigModel {
                            secret_key,
                            webhook_secret: optional_value(vars, "STRIPE_WEBHOOK_SECRET"@),
                            api_base,
                        },
                    ),
                ),
            }
        },
    }
}

/// Whether a host looks like the PayPal sandbox.
pub open spec fn looks_sandbox(host: Option<Seq<char>>) -> bool {
    host matches Some(host) && text::holds_text(host, "sandbox"@)
}

/// The PayPal configuration, if id and secret are configured together.
pub open spec fn paypal_value(vars: Seq<(Seq<char>, Seq<char>)>) -> Result<
    Option<PaypalConfigModel>,
    ConfigErrorModel,
> {
    match (
        optional_value(vars, "PAYPAL_CLIENT_ID"@),
        optional_value(vars, "PAYPAL_CLIENT_SECRET"@),
    ) {
        (Some(client_id), Some(client_secret)) => match url_value(
            vars,
            "PAYPAL_API_BASE"@,
            "https://api-m.sandbox.paypal.com"@,
        ) {
            Err(error) => Err(error),
            Ok((api_base, parts)) => if !looks_sandbox(parts.host) && !live_mode(vars) {
                Err(ConfigErrorModel::LivePaypalWithoutLiveMode)
            } else {
                Ok(
                    Some(
                        PaypalConfigModel {
                            client_id,
                            client_secret,
                            webhook_id: optional_value(vars, "PAYPAL_WEBHOOK_ID"@),
                            api_base,
                        },
                    ),
                )
            },
        },
        (None, None) => Ok(None),
        _ => Err(
            ConfigErrorModel::Invalid(
                "PAYPAL_CLIENT_ID"@,
                "PAYPAL_CLIENT_ID and PAYPAL_CLIENT_SECRET must be set together"@,
            ),
        ),
    }
}

/// The spelling of the default processor.
pub open spec fn default_processor_value(vars: Seq<(Seq<char>, Seq<char>)>) -> Result<
    Seq<char>,
    ConfigErrorModel,
> {
    let name = "FIAT_DEFAULT_PROCESSOR"@;
    let value = text::lower(text::trim(variable_or(vars, name, "stripe"@)));
    if verification::kind_of(value) is Some {
        Ok(value)
    } else {
        Err(ConfigErrorModel::Invalid(name, "must be 'stripe' or 'paypal'"@))
    }
}

/// The number of synthesized confirmations.
pub open spec fn confirmations_value(vars: Seq<(Seq<char>, Seq<char>)>) -> Result<
    int,
    ConfigErrorModel,
> {
    let name = "FIAT_SYNTHESIZED_CONFIRMATIONS"@;
    match number_value(vars, name, 1) {
        Ok(number) => if number > u32::MAX {
            Err(ConfigErrorModel::Invalid(name, "too large"@))
        } else {
            Ok(number)
        },
        Err(error) => Err(error),
    }
}

/// The trimmed entries of a list, without the empty ones.
pub open spec fn entries(parts: Seq<Seq<char>>) -> Seq<Seq<char>>
    decreases parts.len(),
{
    if parts.len() == 0 {
        Seq::empty()
    } else {
        let front = entries(parts.drop_last());
        if text::trim(parts.last()).len() > 0 {
            front.push(text::trim(parts.last()))
        } else {
            front
        }
    }
}

/// The entries of a comma-separated list.
pub open spec fn list_entries(value: Seq<char>) -> Seq<Seq<char>> {
    entries(text::split_all(value, ','))
}

/// Whether an asset may be allowed: three upper-case ASCII letters, but not
/// Bitcoin.
pub open spec fn is_fiat_code(asset: Seq<char>) -> bool {
    &&& text::byte_len(asset) == 3
    &&& forall|i: int| 0 <= i < asset.len() ==> 'A' <= #[trigger] asset[i] <= 'Z'
    &&& asset != "BTC"@
}

/// The assets that are accepted on the fiat path.
pub open spec fn assets_value(vars: Seq<(Seq<char>, Seq<char>)>) -> Result<
    Seq<Seq<char>>,
    ConfigErrorModel,
> {
    let name = "FIAT_ALLOWED_ASSETS"@;
    let assets = list_entries(variable_or(vars, name, "USD"@));
    if forall|i: int| 0 <= i < assets.len() ==> is_fiat_code(#[trigger] assets[i]) {
        Ok(assets)
    } else {
        Err(
            ConfigErrorModel::Invalid(
                name,
                "must be comma-separated uppercase 3-letter fiat codes (never BTC)"@,
            ),
        )
    }
}

/// What is said of an entry that is no exact origin.
pub open spec fn origin_complaint(entry: Seq<char>) -> Seq<char> {
    "'"@ + entry + "' is not an exact https:// origin (scheme+host[+port] only)"@
}

/// The first entry that is no exact origin.
pub open spec fn bad_origin(list: Seq<Seq<char>>) -> Option<Seq<char>>
    decreases list.len(),
{
    if list.len() == 0 {
        None
    } else if return_origin(list[0]) is None {
        Some(list[0])
    } else {
        bad_origin(list.skip(1))
    }
}

/// The origins of a comma-separated list.
pub open spec fn origin_list(value: Seq<char>) -> Result<Seq<Seq<char>>, ConfigErrorModel> {
    match bad_origin(list_entries(value)) {
        Some(entry) => Err(
            ConfigErrorModel::Invalid("BUYER_RETURN_ORIGINS"@, origin_complaint(entry)),
        ),
        None => Ok(list_entries(value)),
    }
}

/// The configuration that the variables give, or the first error in them.
pub open spec fn config_value(vars: Seq<(Seq<char>, Seq<char>)>) -> Result<
    ConfigModel,
    ConfigErrorModel,
> {
    match trusted_key_value(vars) {
        Err(error) => Err(error),
        Ok(trusted_locks_public_key) => match paykit_value(vars) {
            Err(error) => Err(error),
            Ok(paykit_server_url) => match required_value(vars, "FIAT_DATABASE_URL"@) {
                Err(error) => Err(error),
                Ok(database_url) => match stripe_value(vars) {
                    Err(error) => Err(error),
                    Ok(stripe) => match paypal_value(vars) {
                        Err(error) => Err(error),
                        Ok(paypal) => policy_value(
                            vars,
                            trusted_locks_public_key,
                            paykit_server_url,
                            database_url,
                            stripe,
                            paypal,
                        ),
                    },
                },
            },
        },
    }
}

/// The configuration, given the identities and endpoints in it.
pub open spec fn policy_value(
    vars: Seq<(Seq<char>, Seq<char>)>,
    trusted_locks_public_key: Seq<u8>,
    paykit_server_url: Seq<char>,
    database_url: Seq<char>,
    stripe: Option<StripeConfigModel>,
    paypal: Option<PaypalConfigModel>,
) -> Result<ConfigModel, ConfigErrorModel> {
    match default_processor_value(vars) {
        Err(error) => Err(error),
        Ok(default_processor) => match number_value(vars, "FIAT_SETTLEMENT_DELAY_SECONDS"@, 300) {
            Err(error) => Err(error),
            Ok(settlement_delay) => match confirmations_value(vars) {
                Err(error) => Err(error),
                Ok(synthesized_confirmations) => match number_value(
                    vars,
                    "FIAT_POLL_INTERVAL_SECONDS"@,
                    60,
                ) {
                    Err(error) => Err(error),
                    Ok(poll_interval) => match assets_value(vars) {
                        Err(error) => Err(error),
                        Ok(allowed_assets) => match origin_list(
                            variable_or(vars, "BUYER_RETURN_ORIGINS"@, Seq::empty()),
                        ) {
                            Err(error) => Err(error),
                            Ok(buyer_return_origins) => match limits_value(vars) {
                                Err(error) => Err(error),
                                Ok(limits) => Ok(
                                    ConfigModel {
                                        bind_addr: bind_addr_value(vars),
                                        trusted_locks_public_key,
                                        paykit_server_url,
                                        database_url,
                                        stripe,
                                        paypal,
                                        default_processor,
                                        settlement_delay: settlement_delay * 1_000_000_000,
                                        synthesized_confirmations,
                                        poll_interval: poll_interval * 1_000_000_000,
                                        allowed_assets,
                                        checkout_success_url: variable_or(
                                            vars,
                                            "FIAT_CHECKOUT_SUCCESS_URL"@,
                                            "https://staging.pubky.app/marketplace?checkout=return"@,
                                        ),
                                        checkout_cancel_url: variable_or(
                                            vars,
                                            "FIAT_CHECKOUT_CANCEL_URL"@,
                                            "https://staging.pubky.app/marketplace?checkout=cancel"@,
                                        ),
                                        buyer_return_origins,
                                        lock_resource_max_bytes: limits.0,
                                        lock_fetch_timeout: limits.1 * 1_000_000_000,
                                        checkout_rate_per_second: limits.2,
                                        checkout_rate_burst: limits.3,
                                    },
                                ),
                            },
                        },
                    },
                },
            },
        },
    }
}

/// The size limit, the fetch timeout in seconds, and the rate and burst of the
/// checkout endpoint.
pub open spec fn limits_value(vars: Seq<(Seq<char>, Seq<char>)>) -> Result<
    (int, int, int, int),
    ConfigErrorModel,
> {
    match number_value(vars, "FIAT_LOCK_RESOURCE_MAX_BYTES"@, 10_000_000) {
        Err(error) => Err(error),
        Ok(max_bytes) => match number_value(vars, "FIAT_LOCK_FETCH_TIMEOUT_SECONDS"@, 10) {
            Err(error) => Err(error),
            Ok(timeout) => match number_value(vars, "FIAT_CHECKOUT_RATE_PER_SECOND"@, 5) {
                Err(error) => Err(error),
                Ok(rate) => match number_value(vars, "FIAT_CHECKOUT_RATE_BURST"@, 20) {
                    Err(error) => Err(error),
                    Ok(burst) => Ok((max_bytes, timeout, rate, burst)),
                },
            },
        },
    }
}

/// The environment, variable by variable.
pub struct Environment {
    pub vars: Vec<(String, String)>,
}

impl View for Environment {
    type V = Seq<(Seq<char>, Seq<char>)>;

    open spec fn view(&self) -> Seq<(Seq<char>, Seq<char>)> {
        api_call::pairs(self.vars@)
    }
}

impl Environment {
    fn get(&self, name: &str) -> (value: Option<String>)
        ensures
            text::text_opt(value) == variable(self@, name@),
    {
        let ghost all = self@;
        let mut i: usize = 0;
        assert(all.skip(0) =~= all);
        while i < self.vars.len()
            invariant
                i <= self.vars@.len(),
                all == self@,
                variable(all, name@) == variable(all.skip(i as int), name@),
            decreases self.vars.len() - i,
        {
            assert(all.skip(i as int)[0] == (self.vars@[i as int].0@, self.vars@[i as int].1@));
            if text::same_text(&self.vars[i].0, name) {
                return Some(self.vars[i].1.clone());
            }
            assert(all.skip(i as int).skip(1) =~= all.skip(i as int + 1));
            i = i + 1;
        }
        None
    }

    fn get_or(&self, name: &str, default: &str) -> (value: String)
        ensures
            value@ == variable_or(self@, name@, default@),
    {
        match self.get(name) {
            Some(value) => value,
            None => default.to_owned(),
        }
    }

    fn optional(&self, name: &str) -> (value: Option<String>)
        ensures
            text::text_opt(value) == optional_value(self@, name@),
    {
        match self.get(name) {
            Some(value) => {
                let value: String = text::trimmed(&value);
                if value.as_str().unicode_len() > 0 {
                    Some(value)
                } else {
                    None
                }
            },
            None => None,
        }
    }

    fn required(&self, name: &'static str) -> (value: Result<String, ConfigError>)
        ensures
            match value {
                Ok(value) => required_value(self@, name@) == Ok::<Seq<char>, ConfigErrorModel>(
                    value@,
                ),
                Err(error) => required_value(self@, name@) == Err::<Seq<char>, ConfigErrorModel>(
                    error@,
                ),
            },
    {
        match self.optional(name) {
            Some(value) => Ok(value),
            None => Err(ConfigError::Missing(name)),
        }
    }

    fn parse_u64(&self, name: &'static str, default: u64) -> (number: Result<u64, ConfigError>)
        ensures
            match number {
                Ok(number) => number_value(self@, name@, default as int) == Ok::<
                    int,
                    ConfigErrorModel,
                >(number as int),
                Err(error) => number_value(self@, name@, default as int) == Err::<
                    int,
                    ConfigErrorModel,
                >(error@),
            },
    {
        match self.get(name) {
            Some(value) => match decimal::parse_unsigned(&text::trimmed(&value), u64::MAX) {
                Ok(number) => Ok(number),
                Err(fault) => Err(ConfigError::Invalid(name, describe(fault).to_owned())),
            },
            None => Ok(default),
        }
    }

    fn url(&self, name: &'static str, default: &str) -> (url: Result<WebUrl, ConfigError>)
        ensures
            match url {
                Ok(url) => url_value(self@, name@, default@) == Ok::<
                    (Seq<char>, UrlModel),
                    ConfigErrorModel,
                >((url@, url.model())),
                Err(error) => url_value(self@, name@, default@) == Err::<
                    (Seq<char>, UrlModel),
                    ConfigErrorModel,
                >(error@),
            },
    {
        match WebUrl::parse(&self.get_or(name, default)) {
            Ok(url) => Ok(url),
            Err(fault) => Err(ConfigError::Invalid(name, fault)),
        }
    }

    fn is_live(&self) -> (live: bool)
        ensures
            live == live_mode(self@),
    {
        match self.get("FIAT_LIVE_MODE") {
            Some(value) => text::same_text(&value, "true"),
            None => false,
        }
    }

    fn bind_addr(&self) -> (addr: String)
        ensures
            addr@ == bind_addr_value(self@),
    {
        match self.get("FIAT_LISTEN_ADDR") {
            Some(addr) => addr,
            None => match self.get("PORT") {
                Some(port) => text::joined("[::]:", &port),
                None => "[::]:3002".to_owned(),
            },
        }
    }

    fn trusted_key(&self) -> (key: Result<TrustedKey, ConfigError>)
        ensures
            match key {
                Ok(key) => trusted_key_value(self@) == Ok::<Seq<u8>, ConfigErrorModel>(key@),
                Err(error) => trusted_key_value(self@) == Err::<Seq<u8>, ConfigErrorModel>(error@),
            },
    {
        match self.required("FIAT_TRUSTED_LOCKS_PUBLIC_KEY") {
            Ok(value) => parse_trusted_key(&value),
            Err(error) => Err(error),
        }
    }

    fn paykit_server(&self) -> (url: Result<WebUrl, ConfigError>)
        ensures
            match url {
                Ok(url) => paykit_value(self@) == Ok::<Seq<char>, ConfigErrorModel>(url@)
                    && url.is_http(),
                Err(error) => paykit_value(self@) == Err::<Seq<char>, ConfigErrorModel>(error@),
            },
    {
        let url: WebUrl = match self.url(
            "FIAT_PAYKIT_SERVER_URL",
            "http://paykit-server.railway.internal:3001",
        ) {
            Ok(url) => url,
            Err(error) => return Err(error),
        };
        if !url.has_http_scheme() {
            return Err(
                ConfigError::Invalid("FIAT_PAYKIT_SERVER_URL", "must be http(s)".to_owned()),
            );
        }
        Ok(url)
    }

    fn stripe(&self) -> (stripe: Result<Option<StripeConfig>, ConfigError>)
        ensures
            match stripe {
                Ok(None) => stripe_value(self@) == Ok::<
                    Option<StripeConfigModel>,
                    ConfigErrorModel,
                >(None),
                Ok(Some(stripe)) => stripe_value(self@) == Ok::<
                    Option<StripeConfigModel>,
                    ConfigErrorModel,
                >(Some(stripe@)),
                Err(error) => stripe_value(self@) == Err::<
                    Option<StripeConfigModel>,
                    ConfigErrorModel,
                >(error@),
            },
    {
        let secret_key: String = match self.optional("STRIPE_SECRET_KEY") {
            Some(secret_key) => secret_key,
            None => return Ok(None),
        };
        let live_key: bool = text::starts_with(&secret_key, "sk_live") || text::starts_with(
            &secret_key,
            "rk_live",
        );
        if live_key && !self.is_live() {
            return Err(ConfigError::LiveKeyWithoutLiveMode);
        }
        match self.url("STRIPE_API_BASE", "https://api.stripe.com") {
            Ok(api_base) => Ok(
                Some(
                    StripeConfig {
                        secret_key,
                        webhook_secret: self.optional("STRIPE_WEBHOOK_SECRET"),
                        api_base,
                    },
                ),
            ),
            Err(error) => Err(error),
        }
    }

    fn paypal(&self) -> (paypal: Result<Option<PaypalConfig>, ConfigError>)
        ensures
            match paypal {
                Ok(None) => paypal_value(self@) == Ok::<
                    Option<PaypalConfigModel>,
                    ConfigErrorModel,
                >(None),
                Ok(Some(paypal)) => paypal_value(self@) == Ok::<
                    Option<PaypalConfigModel>,
                    ConfigErrorModel,
                >(Some(paypal@)),
                Err(error) => paypal_value(self@) == Err::<
                    Option<PaypalConfigModel>,
                    ConfigErrorModel,
                >(error@),
            },
    {
        match (self.optional("PAYPAL_CLIENT_ID"), self.optional("PAYPAL_CLIENT_SECRET")) {
            (Some(client_id), Some(client_secret)) => {
                let api_base: WebUrl = match self.url(
                    "PAYPAL_API_BASE",
                    "https://api-m.sandbox.paypal.com",
                ) {
                    Ok(api_base) => api_base,
                    Err(error) => return Err(error),
                };
                let sandbox: bool = match &api_base.parts().host {
                    Some(host) => text::contains(host, "sandbox"),
                    None => false,
                };
                if !sandbox && !self.is_live() {
                    return Err(ConfigError::LivePaypalWithoutLiveMode);
                }
                Ok(
                    Some(
                        PaypalConfig {
                            client_id,
                            client_secret,
                            webhook_id: self.optional("PAYPAL_WEBHOOK_ID"),
                            api_base,
                        },
                    ),
                )
            },
            (None, None) => Ok(None),
            _ => Err(
                ConfigError::Invalid(
                    "PAYPAL_CLIENT_ID",
                    "PAYPAL_CLIENT_ID and PAYPAL_CLIENT_SECRET must be set together".to_owned(),
                ),
            ),
        }
    }

    fn default_processor(&self) -> (value: Result<String, ConfigError>)
        ensures
            match value {
                Ok(value) => default_processor_value(self@) == Ok::<Seq<char>, ConfigErrorModel>(
                    value@,
                ),
                Err(error) => default_processor_value(self@) == Err::<
                    Seq<char>,
                    ConfigErrorModel,
                >(error@),
            },
    {
        let value: String = text::lowered(
            &text::trimmed(&self.get_or("FIAT_DEFAULT_PROCESSOR", "stripe")),
        );
        if verification::ProcessorKind::parse(&value).is_none() {
            return Err(
                ConfigError::Invalid(
                    "FIAT_DEFAULT_PROCESSOR",
                    "must be 'stripe' or 'paypal'".to_owned(),
                ),
            );
        }
        Ok(value)
    }

    fn confirmations(&self) -> (number: Result<u32, ConfigError>)
        ensures
            match number {
                Ok(number) => confirmations_value(self@) == Ok::<int, ConfigErrorModel>(
                    number as int,
                ),
                Err(error) => confirmations_value(self@) == Err::<int, ConfigErrorModel>(error@),
            },
    {
        match self.parse_u64("FIAT_SYNTHESIZED_CONFIRMATIONS", 1) {
            Ok(number) => {
                if number > u32::MAX as u64 {
                    Err(
                        ConfigError::Invalid(
                            "FIAT_SYNTHESIZED_CONFIRMATIONS",
                            "too large".to_owned(),
                        ),
                    )
                } else {
                    Ok(number as u32)
                }
            },
            Err(error) => Err(error),
        }
    }

    fn allowed_assets(&self) -> (assets: Result<Vec<String>, ConfigError>)
        ensures
            match assets {
                Ok(assets) => assets_value(self@) == Ok::<Seq<Seq<char>>, ConfigErrorModel>(
                    text::texts(assets@),
                ),
                Err(error) => assets_value(self@) == Err::<Seq<Seq<char>>, ConfigErrorModel>(
                    error@,
                ),
            },
    {
        let assets: Vec<String> = read_entries(&self.get_or("FIAT_ALLOWED_ASSETS", "USD"));
        let mut i: usize = 0;
        while i < assets.len()
            invariant
                i <= assets@.len(),
                text::texts(assets@) == list_entries(
                    variable_or(self@, "FIAT_ALLOWED_ASSETS"@, "USD"@),
                ),
                forall|j: int| 0 <= j < i ==> is_fiat_code(#[trigger] text::texts(assets@)[j]),
            decreases assets.len() - i,
        {
            assert(text::texts(assets@)[i as int] == assets@[i as int]@);
            if !fiat_code(&assets[i]) {
                return Err(
                    ConfigError::Invalid(
                        "FIAT_ALLOWED_ASSETS",
                        "must be comma-separated uppercase 3-letter fiat codes (never BTC)".to_owned(),
                    ),
                );
            }
            i = i + 1;
        }
        Ok(assets)
    }

    fn limits(&self) -> (limits: Result<(u64, u64, u64, u64), ConfigError>)
        ensures
            match limits {
                Ok(limits) => limits_value(self@) == Ok::<(int, int, int, int), ConfigErrorModel>(
                    (limits.0 as int, limits.1 as int, limits.2 as int, limits.3 as int),
                ),
                Err(error) => limits_value(self@) == Err::<
                    (int, int, int, int),
                    ConfigErrorModel,
                >(error@),
            },
    {
        let max_bytes: u64 = match self.parse_u64("FIAT_LOCK_RESOURCE_MAX_BYTES", 10_000_000) {
            Ok(number) => number,
            Err(error) => return Err(error),
        };
        let timeout: u64 = match self.parse_u64("FIAT_LOCK_FETCH_TIMEOUT_SECONDS", 10) {
            Ok(number) => number,
            Err(error) => return Err(error),
        };
        let rate: u64 = match self.parse_u64("FIAT_CHECKOUT_RATE_PER_SECOND", 5) {
            Ok(number) => number,
            Err(error) => return Err(error),
        };
        let burst: u64 = match self.parse_u64("FIAT_CHECKOUT_RATE_BURST", 20) {
            Ok(number) => number,
            Err(error) => return Err(error),
        };
        Ok((max_bytes, timeout, rate, burst))
    }
}

fn describe(fault: IntFault) -> (reason: &'static str)
    ensures
        reason@ == fault_text(fault),
{
    match fault {
        IntFault::Empty => "cannot parse integer from empty string",
        IntFault::InvalidDigit => "invalid digit found in string",
        IntFault::TooLarge => "number too large to fit in target type",
    }
}

fn read_entries(value: &str) -> (list: Vec<String>)
    ensures
        text::texts(list@) == list_entries(value@),
{
    let parts: Vec<String> = text::split_at_each(value, ',');
    let ghost all = text::texts(parts@);
    let mut list: Vec<String> = Vec::new();
    let mut i: usize = 0;
    assert(text::texts(list@) =~= entries(all.take(0)));
    while i < parts.len()
        invariant
            i <= parts@.len(),
            all == text::texts(parts@),
            text::texts(list@) == entries(all.take(i as int)),
        decreases parts.len() - i,
    {
        proof {
            assert(all.take(i as int + 1).drop_last() =~= all.take(i as int));
            assert(all.take(i as int + 1).last() == parts@[i as int]@);
        }
        let entry: String = text::trimmed(&parts[i]);
        if entry.as_str().unicode_len() > 0 {
            let ghost before = list@;
            list.push(entry);
            assert(text::texts(list@) =~= text::texts(before).push(entry@));
        }
        i = i + 1;
    }
    assert(all.take(i as int) =~= all);
    list
}

fn fiat_code(asset: &str) -> (fiat: bool)
    ensures
        fiat == is_fiat_code(asset@),
{
    if text::bytes_in(asset) != 3 || text::same_text(asset, "BTC") {
        return false;
    }
    let chars: Vec<char> = text::chars_of(asset);
    let mut i: usize = 0;
    while i < chars.len()
        invariant
            chars@ == asset@,
            i <= chars@.len(),
            forall|j: int| 0 <= j < i ==> 'A' <= #[trigger] asset@[j] <= 'Z',
        decreases chars.len() - i,
    {
        let c: char = chars[i];
        if !(c >= 'A' && c <= 'Z') {
            assert(!('A' <= asset@[i as int] <= 'Z'));
            return false;
        }
        i = i + 1;
    }
    true
}

impl Config {
    /// Reads the configuration from the environment.
    pub fn from_env(env: &Environment) -> (config: Result<Config, ConfigError>)
        ensures
            match config {
                Ok(config) => config_value(env@) == Ok::<ConfigModel, ConfigErrorModel>(config@),
                Err(error) => config_value(env@) == Err::<ConfigModel, ConfigErrorModel>(error@),
            },
            config matches Ok(config) ==> config.paykit_server_url.is_http(),
    {
        let bind_addr: String = env.bind_addr();
        let trusted_locks_public_key: TrustedKey = match env.trusted_key() {
            Ok(key) => key,
            Err(error) => return Err(error),
        };
        let paykit_server_url: WebUrl = match env.paykit_server() {
            Ok(url) => url,
            Err(error) => return Err(error),
        };
        let database_url: String = match env.required("FIAT_DATABASE_URL") {
            Ok(url) => url,
            Err(error) => return Err(error),
        };
        let stripe: Option<StripeConfig> = match env.stripe() {
            Ok(stripe) => stripe,
            Err(error) => return Err(error),
        };
        let paypal: Option<PaypalConfig> = match env.paypal() {
            Ok(paypal) => paypal,
            Err(error) => return Err(error),
        };
        let default_processor: String = match env.default_processor() {
            Ok(value) => value,
            Err(error) => return Err(error),
        };
        let settlement_delay: u64 = match env.parse_u64("FIAT_SETTLEMENT_DELAY_SECONDS", 300) {
            Ok(number) => number,
            Err(error) => return Err(error),
        };
        let synthesized_confirmations: u32 = match env.confirmations() {
            Ok(number) => number,
            Err(error) => return Err(error),
        };
        let poll_interval: u64 = match env.parse_u64("FIAT_POLL_INTERVAL_SECONDS", 60) {
            Ok(number) => number,
            Err(error) => return Err(error),
        };
        let allowed_assets: Vec<String> = match env.allowed_assets() {
            Ok(assets) => assets,
            Err(error) => return Err(error),
        };
        let checkout_success_url: String = env.get_or(
            "FIAT_CHECKOUT_SUCCESS_URL",
            "https://staging.pubky.app/marketplace?checkout=return",
        );
        let checkout_cancel_url: String = env.get_or(
            "FIAT_CHECKOUT_CANCEL_URL",
            "https://staging.pubky.app/marketplace?checkout=cancel",
        );
        let named: Option<String> = env.get("BUYER_RETURN_ORIGINS");
        let origins: String = match named {
            Some(origins) => origins,
            None => String::new(),
        };
        assert(origins@ =~= variable_or(env@, "BUYER_RETURN_ORIGINS"@, Seq::empty()));
        let buyer_return_origins: Vec<String> = match parse_origin_list(&origins) {
            Ok(origins) => origins,
            Err(error) => return Err(error),
        };
        let (max_bytes, timeout, rate, burst): (u64, u64, u64, u64) = match env.limits() {
            Ok(limits) => limits,
            Err(error) => return Err(error),
        };
        Ok(
            Config {
                bind_addr,
                trusted_locks_public_key,
                paykit_server_url,
                database_url,
                stripe,
                paypal,
                default_processor,
                settlement_delay: Span::from_secs(settlement_delay),
                synthesized_confirmations,
                poll_interval: Span::from_secs(poll_interval),
                allowed_assets,
                checkout_success_url,
                checkout_cancel_url,
                buyer_return_origins,
                lock_resource_max_bytes: max_bytes,
                lock_fetch_timeout: Span::from_secs(timeout),
                checkout_rate_per_second: rate,
                checkout_rate_burst: burst,
            },
        )
    }
}

/// The key with these bytes, if `value` is its canonical spelling.
pub fn key_of_spelling(value: &str, spelling: &str, bytes: [u8; 32]) -> (key: Result<
    TrustedKey,
    ConfigError,
>)
    ensures
        match key {
            Ok(key) => exact_key(
                value@,
                Ok::<(Seq<char>, Seq<u8>), Seq<char>>((spelling@, bytes@)),
            ) == Ok::<Seq<u8>, ConfigErrorModel>(key@),
            Err(error) => exact_key(
                value@,
                Ok::<(Seq<char>, Seq<u8>), Seq<char>>((spelling@, bytes@)),
            ) == Err::<Seq<u8>, ConfigErrorModel>(error@),
        },
{
    if !text::same_text(spelling, value) {
        return Err(
            ConfigError::Invalid(
                "FIAT_TRUSTED_LOCKS_PUBLIC_KEY",
                "must be the canonical pubky-prefixed spelling".to_owned(),
            ),
        );
    }
    match TrustedKey::from_bytes(bytes) {
        Ok(key) => Ok(key),
        Err(fault) => Err(ConfigError::Invalid("FIAT_TRUSTED_LOCKS_PUBLIC_KEY", fault)),
    }
}

/// Parses a canonical pubky-prefixed public key: the spelling must be the one
/// that the key is written back with, and the key a valid curve point.
pub fn parse_trusted_key(value: &str) -> (key: Result<TrustedKey, ConfigError>)
    ensures
        match key {
            Ok(key) => trusted_key(value@) == Ok::<Seq<u8>, ConfigErrorModel>(key@),
            Err(error) => trusted_key(value@) == Err::<Seq<u8>, ConfigErrorModel>(error@),
        },
{
    match crypto::read_public_key(value) {
        Ok((spelling, bytes)) => key_of_spelling(value, &spelling, bytes),
        Err(fault) => Err(ConfigError::Invalid("FIAT_TRUSTED_LOCKS_PUBLIC_KEY", fault)),
    }
}

/// The origin that a text is the exact spelling of, given the parts that the
/// text parses into and the origin of what it parses into: `https://host[:port]`
/// and nothing else.
pub open spec fn exact_origin(
    value: Seq<char>,
    parts: UrlModel,
    origin: Seq<char>,
) -> Option<Seq<char>> {
    if parts.scheme == "https"@ && parts.username.len() == 0 && parts.password is None
        && parts.path == "/"@ && parts.query is None && parts.fragment is None && origin == value {
        Some(value)
    } else {
        None
    }
}

/// The origin that a text is the exact spelling of. The origin of a URL without
/// credentials is everything before its path.
pub open spec fn return_origin(value: Seq<char>) -> Option<Seq<char>> {
    match web_url::parsed_url(value) {
        Ok(parts) => exact_origin(value, parts, parts.front),
        Err(_) => None,
    }
}

/// The origin that a text is the exact spelling of, given its parts and its
/// origin.
pub fn origin_of_parts(value: &str, parts: &UrlParts, origin: &str) -> (exact: Option<String>)
    ensures
        text::text_opt(exact) == exact_origin(value@, parts@, origin@),
{
    if !text::same_text(&parts.scheme, "https") || parts.username.as_str().unicode_len() != 0
        || parts.password.is_some() || !text::same_text(&parts.path, "/") || parts.query.is_some()
        || parts.fragment.is_some() || !text::same_text(origin, value) {
        return None;
    }
    Some(value.to_owned())
}

/// Parses one exact buyer return origin: `https://host[:port]` and nothing
/// else, in the spelling that parsing and serializing it gives back. The result
/// doubles as the allowlist comparison key.
pub fn parse_return_origin(value: &str) -> (origin: Option<String>)
    ensures
        text::text_opt(origin) == return_origin(value@),
{
    match web_url::read_url(value) {
        Ok(parts) => {
            if !text::same_text(&parts.scheme, "https") || parts.username.as_str().unicode_len()
                != 0 || parts.password.is_some() {
                return None;
            }
            let origin: String = web_url::read_origin(value);
            origin_of_parts(value, &parts, &origin)
        },
        Err(_) => None,
    }
}

/// Parses the comma-separated allowlist of return origins; any invalid entry is
/// an error.
pub fn parse_origin_list(value: &str) -> (origins: Result<Vec<String>, ConfigError>)
    ensures
        match origins {
            Ok(origins) => origin_list(value@) == Ok::<Seq<Seq<char>>, ConfigErrorModel>(
                text::texts(origins@),
            ),
            Err(error) => origin_list(value@) == Err::<Seq<Seq<char>>, ConfigErrorModel>(error@),
        },
{
    let list: Vec<String> = read_entries(value);
    let ghost all = text::texts(list@);
    let mut i: usize = 0;
    assert(all.skip(0) =~= all);
    while i < list.len()
        invariant
            i <= list@.len(),
            all == text::texts(list@),
            all == list_entries(value@),
            bad_origin(all) == bad_origin(all.skip(i as int)),
        decreases list.len() - i,
    {
        assert(all.skip(i as int)[0] == list@[i as int]@);
        if parse_return_origin(&list[i]).is_none() {
            let reason: String = text::joined(
                &text::joined("'", &list[i]),
                "' is not an exact https:// origin (scheme+host[+port] only)",
            );
            return Err(ConfigError::Invalid("BUYER_RETURN_ORIGINS", reason));
        }
        assert(all.skip(i as int).skip(1) =~= all.skip(i as int + 1));
        i = i + 1;
    }
    Ok(list)
}

/// An accepted return origin is spelled exactly as it was named, and is an
/// `https` origin without anything around it.
pub proof fn return_origin_is_verbatim(value: Seq<char>)
    ensures
        return_origin(value) matches Some(origin) ==> origin == value && (web_url::parsed_url(
            value,
        ) matches Ok(parts) && parts.scheme == "https"@ && parts.front == value && parts.path == "/"@
            && parts.username.len() == 0 && parts.password is None && parts.query is None
            && parts.fragment is None),
{
}

/// No configuration with a live-looking Stripe key, or with PayPal outside its
/// sandbox, is accepted unless live mode is on.
pub proof fn live_mode_is_explicit(vars: Seq<(Seq<char>, Seq<char>)>)
    requires
        !live_mode(vars),
    ensures
        config_value(vars) matches Ok(config) ==> {
            &&& config.stripe matches Some(stripe) ==> !looks_live(stripe.secret_key)
            &&& config.paypal matches Some(paypal) ==> (web_url::parsed_url(
                paypal.api_base,
            ) matches Ok(parts) && looks_sandbox(parts.host))
        },
{
}

/// What every accepted configuration is: Bitcoin is never an allowed asset,
/// every return origin is an exact one, the default processor is one of the
/// two, and the Paykit Server is reached by http(s).
pub proof fn accepted_config_is_sound(vars: Seq<(Seq<char>, Seq<char>)>)
    ensures
        config_value(vars) matches Ok(config) ==> {
            &&& !config.allowed_assets.contains("BTC"@)
            &&& forall|i: int|
                0 <= i < config.buyer_return_origins.len() ==> return_origin(
                    #[trigger] config.buyer_return_origins[i],
                ) is Some
            &&& verification::kind_of(config.default_processor) is Some
            &&& web_url::parsed_url(config.paykit_server_url) matches Ok(parts) && (parts.scheme
                == "http"@ || parts.scheme == "https"@)
        },
{
    match config_value(vars) {
        Ok(config) => {
            if config.allowed_assets.contains("BTC"@) {
                let i = config.allowed_assets.index_of("BTC"@);
                assert(is_fiat_code(config.allowed_assets[i]));
            }
            lemma_no_bad_origin(config.buyer_return_origins);
        },
        Err(_) => {},
    }
}

proof fn lemma_no_bad_origin(list: Seq<Seq<char>>)
    requires
        bad_origin(list) is None,
    ensures
        forall|i: int| 0 <= i < list.len() ==> return_origin(#[trigger] list[i]) is Some,
    decreases list.len(),
{
    if list.len() > 0 {
        lemma_no_bad_origin(list.skip(1));
        assert forall|i: int| 0 <= i < list.len() implies return_origin(#[trigger] list[i]) is Some by {
            if i > 0 {
                assert(list.skip(1)[i - 1] == list[i]);
            }
        }
    }
}

} // verus!
