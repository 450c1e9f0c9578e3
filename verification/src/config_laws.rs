//! Which variable sets what. The laws speak of the variables by their names,
//! and of the configuration that is accepted.

use crate::config;
use crate::config::ConfigErrorModel;
use crate::config::ConfigModel;
use crate::crypto;
use crate::decimal;
use crate::text;
use crate::text_laws;
use crate::web_url;
use vstd::prelude::*;
use vstd::utf8::*;

verus! {

/// A variable is the first one of its name.
pub proof fn variables_are_found_by_name(
    vars: Seq<(Seq<char>, Seq<char>)>,
    name: Seq<char>,
    at: int,
)
    ensures
        0 <= at < vars.len() && vars[at].0 == name && (forall|j: int|
            0 <= j < at ==> (#[trigger] vars[j]).0 != name) ==> config::variable(vars, name) == Some(
            vars[at].1,
        ),
        (forall|j: int| 0 <= j < vars.len() ==> (#[trigger] vars[j]).0 != name)
            ==> config::variable(vars, name) is None,
    decreases vars.len(),
{
    if vars.len() > 0 {
        let rest = vars.skip(1);
        variables_are_found_by_name(rest, name, at - 1);
        if 0 <= at < vars.len() && vars[at].0 == name && (forall|j: int|
            0 <= j < at ==> (#[trigger] vars[j]).0 != name) && at > 0 {
            assert(vars[0].0 != name);
            assert(rest[at - 1] == vars[at]);
            assert forall|j: int| 0 <= j < at - 1 implies (#[trigger] rest[j]).0 != name by {
                assert(rest[j] == vars[j + 1]);
            }
        }
        if forall|j: int| 0 <= j < vars.len() ==> (#[trigger] vars[j]).0 != name {
            assert(vars[0].0 != name);
            assert forall|j: int| 0 <= j < rest.len() implies (#[trigger] rest[j]).0 != name by {
                assert(rest[j] == vars[j + 1]);
            }
        }
    }
}

/// Whether a variable says a text, up to white space around it.
pub open spec fn says(
    vars: Seq<(Seq<char>, Seq<char>)>,
    name: Seq<char>,
    said: Seq<char>,
) -> bool {
    config::variable(vars, name) matches Some(value) && text::trim(value) == said
}

/// Whether a variable is not set, or blank.
pub open spec fn is_blank(vars: Seq<(Seq<char>, Seq<char>)>, name: Seq<char>) -> bool {
    match config::variable(vars, name) {
        Some(value) => text::trim(value).len() == 0,
        None => true,
    }
}

/// Whether a variable sets a number, or leaves the default.
pub open spec fn sets(
    vars: Seq<(Seq<char>, Seq<char>)>,
    name: Seq<char>,
    default: int,
    number: int,
) -> bool {
    match config::variable(vars, name) {
        Some(value) => text::trim(value) == decimal::decimal(number),
        None => number == default,
    }
}

/// Whether a variable sets a text as it is, or leaves the default.
pub open spec fn keeps(
    vars: Seq<(Seq<char>, Seq<char>)>,
    name: Seq<char>,
    default: Seq<char>,
    kept: Seq<char>,
) -> bool {
    match config::variable(vars, name) {
        Some(value) => kept == value,
        None => kept == default,
    }
}

/// The numbers of an accepted configuration are those that their variables
/// spell, and the defaults where those are not set. Delays and intervals are
/// given in seconds.
pub proof fn numbers_come_from_their_variables(
    vars: Seq<(Seq<char>, Seq<char>)>,
    config: ConfigModel,
    number: u64,
)
    requires
        config::config_value(vars) == Ok::<ConfigModel, ConfigErrorModel>(config),
    ensures
        sets(vars, "FIAT_SETTLEMENT_DELAY_SECONDS"@, 300, number as int) ==> config.settlement_delay
            == number * 1_000_000_000,
        sets(vars, "FIAT_SYNTHESIZED_CONFIRMATIONS"@, 1, number as int)
            ==> config.synthesized_confirmations == number && number <= u32::MAX,
        sets(vars, "FIAT_POLL_INTERVAL_SECONDS"@, 60, number as int) ==> config.poll_interval
            == number * 1_000_000_000,
        sets(vars, "FIAT_LOCK_RESOURCE_MAX_BYTES"@, 10_000_000, number as int)
            ==> config.lock_resource_max_bytes == number,
        sets(vars, "FIAT_LOCK_FETCH_TIMEOUT_SECONDS"@, 10, number as int)
            ==> config.lock_fetch_timeout == number * 1_000_000_000,
        sets(vars, "FIAT_CHECKOUT_RATE_PER_SECOND"@, 5, number as int)
            ==> config.checkout_rate_per_second == number,
        sets(vars, "FIAT_CHECKOUT_RATE_BURST"@, 20, number as int) ==> config.checkout_rate_burst
            == number,
{
    text_laws::unsigned_numerals_are_read(number as nat, u64::MAX as nat);
}

/// A number that is no numeral, or does not fit, is refused under the name of
/// its variable.
pub proof fn bad_numbers_are_refused(
    vars: Seq<(Seq<char>, Seq<char>)>,
    name: Seq<char>,
    default: int,
    number: nat,
)
    ensures
        says(vars, name, Seq::empty()) ==> config::number_value(vars, name, default) == Err::<
            int,
            ConfigErrorModel,
        >(ConfigErrorModel::Invalid(name, "cannot parse integer from empty string"@)),
        says(vars, name, decimal::decimal(number as int)) && number > u64::MAX
            ==> config::number_value(vars, name, default) == Err::<int, ConfigErrorModel>(
            ConfigErrorModel::Invalid(name, "number too large to fit in target type"@),
        ),
        says(vars, name, seq!['+']) ==> config::number_value(vars, name, default) == Err::<
            int,
            ConfigErrorModel,
        >(ConfigErrorModel::Invalid(name, "invalid digit found in string"@)),
{
    text_laws::unsigned_numerals_are_read(number, u64::MAX as nat);
}

/// The texts of an accepted configuration are those of their variables, and the
/// defaults where those are not set. The address to listen on is given whole, or
/// by its port.
pub proof fn texts_come_from_their_variables(
    vars: Seq<(Seq<char>, Seq<char>)>,
    config: ConfigModel,
)
    requires
        config::config_value(vars) == Ok::<ConfigModel, ConfigErrorModel>(config),
    ensures
        match (config::variable(vars, "FIAT_LISTEN_ADDR"@), config::variable(vars, "PORT"@)) {
            (Some(address), _) => config.bind_addr == address,
            (None, Some(port)) => config.bind_addr == "[::]:"@ + port,
            (None, None) => config.bind_addr == "[::]:3002"@,
        },
        says(vars, "FIAT_DATABASE_URL"@, config.database_url) && config.database_url.len() > 0,
        keeps(
            vars,
            "FIAT_PAYKIT_SERVER_URL"@,
            "http://paykit-server.railway.internal:3001"@,
            config.paykit_server_url,
        ),
        keeps(
            vars,
            "FIAT_CHECKOUT_SUCCESS_URL"@,
            "https://staging.pubky.app/marketplace?checkout=return"@,
            config.checkout_success_url,
        ),
        keeps(
            vars,
            "FIAT_CHECKOUT_CANCEL_URL"@,
            "https://staging.pubky.app/marketplace?checkout=cancel"@,
            config.checkout_cancel_url,
        ),
        match config::variable(vars, "FIAT_DEFAULT_PROCESSOR"@) {
            Some(value) => config.default_processor == text::lower(text::trim(value)),
            None => config.default_processor == "stripe"@,
        },
        config.default_processor == "stripe"@ || config.default_processor == "paypal"@,
{
    reveal_strlit("stripe");
    assert(text::trim("stripe"@) == "stripe"@) by {
        text::lemma_trim_kept("stripe"@);
    }
    assert(text::lower("stripe"@) =~= "stripe"@);
}

/// The pinned key is the one that its variable spells canonically. Without it,
/// and without a database, nothing starts.
pub proof fn key_and_database_are_required(
    vars: Seq<(Seq<char>, Seq<char>)>,
    spelled: Seq<char>,
)
    ensures
        is_blank(vars, "FIAT_TRUSTED_LOCKS_PUBLIC_KEY"@) ==> config::config_value(vars) == Err::<
            ConfigModel,
            ConfigErrorModel,
        >(ConfigErrorModel::Missing("FIAT_TRUSTED_LOCKS_PUBLIC_KEY"@)),
        is_blank(vars, "FIAT_DATABASE_URL"@) ==> config::config_value(vars) is Err,
        says(vars, "FIAT_TRUSTED_LOCKS_PUBLIC_KEY"@, spelled) && config::config_value(vars) is Ok
            ==> {
            &&& crypto::parsed_public_key(spelled) matches Ok((spelling, bytes))
            &&& spelling == spelled
            &&& crypto::key_fault(bytes) is None
            &&& config::config_value(vars)->Ok_0.trusted_locks_public_key == bytes
        },
{
}

/// Stripe is configured exactly by its secret key, with the webhook secret and
/// the address of its variables.
pub proof fn stripe_is_configured_by_its_key(
    vars: Seq<(Seq<char>, Seq<char>)>,
    config: ConfigModel,
)
    requires
        config::config_value(vars) == Ok::<ConfigModel, ConfigErrorModel>(config),
    ensures
        match config.stripe {
            Some(stripe) => {
                &&& says(vars, "STRIPE_SECRET_KEY"@, stripe.secret_key)
                &&& stripe.secret_key.len() > 0
                &&& keeps(vars, "STRIPE_API_BASE"@, "https://api.stripe.com"@, stripe.api_base)
                &&& match stripe.webhook_secret {
                    Some(secret) => says(vars, "STRIPE_WEBHOOK_SECRET"@, secret) && secret.len()
                        > 0,
                    None => is_blank(vars, "STRIPE_WEBHOOK_SECRET"@),
                }
            },
            None => is_blank(vars, "STRIPE_SECRET_KEY"@),
        },
{
}

/// PayPal is configured exactly by its client id and secret together, with the
/// webhook id and the address of its variables; one without the other is
/// refused.
pub proof fn paypal_is_configured_by_id_and_secret(vars: Seq<(Seq<char>, Seq<char>)>)
    ensures
        is_blank(vars, "PAYPAL_CLIENT_ID"@) != is_blank(vars, "PAYPAL_CLIENT_SECRET"@)
            ==> config::paypal_value(vars) == Err::<
            Option<config::PaypalConfigModel>,
            ConfigErrorModel,
        >(
            ConfigErrorModel::Invalid(
                "PAYPAL_CLIENT_ID"@,
                "PAYPAL_CLIENT_ID and PAYPAL_CLIENT_SECRET must be set together"@,
            ),
        ),
        is_blank(vars, "PAYPAL_CLIENT_ID"@) != is_blank(vars, "PAYPAL_CLIENT_SECRET"@)
            ==> config::config_value(vars) is Err,
        config::config_value(vars) matches Ok(config) ==> match config.paypal {
            Some(paypal) => {
                &&& says(vars, "PAYPAL_CLIENT_ID"@, paypal.client_id)
                &&& paypal.client_id.len() > 0
                &&& says(vars, "PAYPAL_CLIENT_SECRET"@, paypal.client_secret)
                &&& paypal.client_secret.len() > 0
                &&& keeps(
                    vars,
                    "PAYPAL_API_BASE"@,
                    "https://api-m.sandbox.paypal.com"@,
                    paypal.api_base,
                )
                &&& match paypal.webhook_id {
                    Some(id) => says(vars, "PAYPAL_WEBHOOK_ID"@, id) && id.len() > 0,
                    None => is_blank(vars, "PAYPAL_WEBHOOK_ID"@),
                }
            },
            None => is_blank(vars, "PAYPAL_CLIENT_ID"@) && is_blank(vars, "PAYPAL_CLIENT_SECRET"@),
        },
{
}

/// A Stripe key that begins with `sk_live` or `rk_live`, and a PayPal address
/// whose host does not hold `sandbox`, are refused unless `FIAT_LIVE_MODE` is
/// exactly `true`, and not for that reason where it is.
pub proof fn live_credentials_need_live_mode(
    vars: Seq<(Seq<char>, Seq<char>)>,
    key: Seq<char>,
    host: Seq<char>,
)
    ensures
        ({
            let live = config::variable(vars, "FIAT_LIVE_MODE"@) == Some("true"@);
            let refused = Err::<Option<config::StripeConfigModel>, ConfigErrorModel>(
                ConfigErrorModel::LiveKeyWithoutLiveMode,
            );
            let looks_live = key.len() >= 7 && (key.take(7) == "sk_live"@ || key.take(7)
                == "rk_live"@);
            &&& says(vars, "STRIPE_SECRET_KEY"@, key) && key.len() > 0 ==> ((
            config::stripe_value(vars) == refused) <==> (looks_live && !live))
            &&& !live && config::config_value(vars) is Ok ==> match config::config_value(
                vars,
            )->Ok_0.stripe {
                Some(stripe) => stripe.secret_key == key ==> !looks_live,
                None => true,
            }
        }),
        ({
            let live = config::variable(vars, "FIAT_LIVE_MODE"@) == Some("true"@);
            let refused = Err::<Option<config::PaypalConfigModel>, ConfigErrorModel>(
                ConfigErrorModel::LivePaypalWithoutLiveMode,
            );
            !is_blank(vars, "PAYPAL_CLIENT_ID"@) && !is_blank(vars, "PAYPAL_CLIENT_SECRET"@) && (
            config::url_value(vars, "PAYPAL_API_BASE"@, "https://api-m.sandbox.paypal.com"@)
                matches Ok((_, parts)) && parts.host == Some(host)) ==> ((config::paypal_value(vars)
                == refused) <==> (!live && !text::holds_text(host, "sandbox"@)))
        }),
{
    reveal_strlit("sk_live");
    reveal_strlit("rk_live");
    assert("sk_live"@.len() == 7 && "rk_live"@.len() == 7);
    text_laws::prefixes_are_taken_off("sk_live"@, Seq::empty(), key);
    text_laws::prefixes_are_taken_off("rk_live"@, Seq::empty(), key);
}

/// An address is kept with its text, and refused where it does not parse.
pub proof fn addresses_must_parse(
    vars: Seq<(Seq<char>, Seq<char>)>,
    name: Seq<char>,
    default: Seq<char>,
    kept: Seq<char>,
)
    requires
        keeps(vars, name, default, kept),
    ensures
        match web_url::parsed_url(kept) {
            Ok(parts) => config::url_value(vars, name, default) == Ok::<
                (Seq<char>, web_url::UrlModel),
                ConfigErrorModel,
            >((kept, parts)),
            Err(fault) => config::url_value(vars, name, default) == Err::<
                (Seq<char>, web_url::UrlModel),
                ConfigErrorModel,
            >(ConfigErrorModel::Invalid(name, fault)),
        },
{
}

proof fn lemma_entries(left: Seq<Seq<char>>, right: Seq<Seq<char>>)
    ensures
        config::entries(left + right) == config::entries(left) + config::entries(right),
    decreases right.len(),
{
    if right.len() == 0 {
        assert(left + right =~= left);
        assert(config::entries(left) + config::entries(right) =~= config::entries(left));
    } else {
        let front = right.drop_last();
        lemma_entries(left, front);
        assert((left + right).drop_last() =~= left + front);
        assert((left + right).last() == right.last());
        if text::trim(right.last()).len() > 0 {
            assert((config::entries(left) + config::entries(front)).push(text::trim(right.last()))
                =~= config::entries(left) + config::entries(front).push(text::trim(right.last())));
        }
    }
}

/// A list is read entry by entry: what stands between commas, without the white
/// space around it, in order; blank entries are left out.
pub proof fn lists_are_read_entry_by_entry(entry: Seq<char>, more: Seq<char>)
    requires
        !entry.contains(','),
    ensures
        config::list_entries(entry) == (if text::trim(entry).len() > 0 {
            seq![text::trim(entry)]
        } else {
            Seq::empty()
        }),
        config::list_entries(entry.push(',') + more) == config::list_entries(entry)
            + config::list_entries(more),
{
    text_laws::texts_are_split_everywhere(entry, ',', more);
    lemma_entries(text::split_all(entry, ','), text::split_all(more, ','));
    let parts = text::split_all(entry, ',');
    assert(parts =~= seq![entry]);
    assert(parts.drop_last() =~= Seq::<Seq<char>>::empty());
    assert(config::entries(Seq::empty()) =~= Seq::<Seq<char>>::empty());
    assert(Seq::<Seq<char>>::empty().push(text::trim(entry)) =~= seq![text::trim(entry)]);
}

/// Whether a code is three upper-case letters, and not that of Bitcoin.
pub open spec fn is_currency(asset: Seq<char>) -> bool {
    &&& asset.len() == 3
    &&& forall|i: int| 0 <= i < 3 ==> 'A' <= #[trigger] asset[i] <= 'Z'
    &&& asset != "BTC"@
}

proof fn lemma_fiat_code(asset: Seq<char>)
    ensures
        config::is_fiat_code(asset) <==> is_currency(asset),
{
    if forall|i: int| 0 <= i < asset.len() ==> 'A' <= #[trigger] asset[i] <= 'Z' {
        assert(is_ascii_chars(asset));
        is_ascii_chars_encode_utf8(asset);
    }
}

/// The allowed assets are the entries of their variable, and those are
/// currencies; the allowed origins are the entries of theirs, and those are
/// exact origins.
pub proof fn lists_come_from_their_variables(
    vars: Seq<(Seq<char>, Seq<char>)>,
    config: ConfigModel,
    at: int,
)
    requires
        config::config_value(vars) == Ok::<ConfigModel, ConfigErrorModel>(config),
    ensures
        config.allowed_assets == config::list_entries(
            match config::variable(vars, "FIAT_ALLOWED_ASSETS"@) {
                Some(value) => value,
                None => "USD"@,
            },
        ),
        0 <= at < config.allowed_assets.len() ==> is_currency(config.allowed_assets[at]),
        config.buyer_return_origins == (match config::variable(vars, "BUYER_RETURN_ORIGINS"@) {
            Some(value) => config::list_entries(value),
            None => Seq::empty(),
        }),
        0 <= at < config.buyer_return_origins.len() ==> (web_url::parsed_url(
            config.buyer_return_origins[at],
        ) matches Ok(parts) && parts.scheme == "https"@ && parts.front
            == config.buyer_return_origins[at] && parts.path == "/"@),
{
    if 0 <= at < config.allowed_assets.len() {
        lemma_fiat_code(config.allowed_assets[at]);
        assert(config::is_fiat_code(config.allowed_assets[at]));
    }
    config::accepted_config_is_sound(vars);
    if 0 <= at < config.buyer_return_origins.len() {
        config::return_origin_is_verbatim(config.buyer_return_origins[at]);
        assert(config::return_origin(config.buyer_return_origins[at]) is Some);
    }
    let blank = Seq::<char>::empty();
    assert(!blank.contains(','));
    lists_are_read_entry_by_entry(blank, blank);
    text::lemma_trim_kept(blank);
}

/// A list with an entry that is no currency, or no exact origin, is refused.
pub proof fn bad_lists_are_refused(
    vars: Seq<(Seq<char>, Seq<char>)>,
    list: Seq<Seq<char>>,
    at: int,
)
    requires
        0 <= at < list.len(),
    ensures
        (config::variable(vars, "FIAT_ALLOWED_ASSETS"@) matches Some(value) && config::list_entries(
            value,
        ) == list) && !is_currency(list[at]) ==> config::config_value(vars) is Err,
        (config::variable(vars, "BUYER_RETURN_ORIGINS"@) matches Some(value)
            && config::list_entries(value) == list) && config::return_origin(list[at]) is None
            ==> config::config_value(vars) is Err,
{
    match config::config_value(vars) {
        Ok(config) => {
            lists_come_from_their_variables(vars, config, at);
            config::accepted_config_is_sound(vars);
            if config.buyer_return_origins == list {
                assert(config::return_origin(config.buyer_return_origins[at]) is Some);
            }
        },
        Err(_) => {},
    }
}

/// A return origin is accepted exactly if it parses as an `https` address
/// without credentials, path, query and fragment, and is spelled as everything
/// before its path.
pub proof fn exact_origins_are_accepted(value: Seq<char>, parts: web_url::UrlModel)
    ensures
        web_url::parsed_url(value) == Ok::<web_url::UrlModel, Seq<char>>(parts)
            ==> config::return_origin(value) == (if parts.scheme == "https"@ && parts.username
            == Seq::<char>::empty() && parts.password is None && parts.path == "/"@
            && parts.query is None && parts.fragment is None && parts.front == value {
            Some(value)
        } else {
            None
        }),
        web_url::parsed_url(value) is Err ==> config::return_origin(value) is None,
{
    if parts.username.len() == 0 {
        assert(parts.username =~= Seq::<char>::empty());
    }
}

/// The Paykit Server is reached by `http` or `https`; any other address is
/// refused.
pub proof fn paykit_is_reached_by_http(
    vars: Seq<(Seq<char>, Seq<char>)>,
    kept: Seq<char>,
    parts: web_url::UrlModel,
)
    requires
        keeps(
            vars,
            "FIAT_PAYKIT_SERVER_URL"@,
            "http://paykit-server.railway.internal:3001"@,
            kept,
        ),
        web_url::parsed_url(kept) == Ok::<web_url::UrlModel, Seq<char>>(parts),
    ensures
        config::paykit_value(vars) is Ok <==> parts.scheme == "http"@ || parts.scheme == "https"@,
        config::paykit_value(vars) matches Ok(address) ==> address == kept,
{
}

} // verus!
