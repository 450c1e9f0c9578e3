use fiat_verifier::config::{
    key_of_spelling, origin_of_parts, parse_origin_list, parse_return_origin, parse_trusted_key,
    Config, ConfigError, Environment,
};
use fiat_verifier::web_url::{UrlParts, WebUrl};

fn key_text() -> String {
    let key = ed25519_dalek::SigningKey::from_bytes(&[9_u8; 32]);
    let bytes = key.verifying_key().to_bytes();
    let keypair = pubky::Keypair::from_secret(&[9_u8; 32]);
    assert_eq!(keypair.public_key().to_bytes(), bytes);
    keypair.public_key().to_string()
}

fn env(extra: &[(&str, &str)]) -> Environment {
    let mut vars: Vec<(String, String)> = extra
        .iter()
        .map(|(name, value)| ((*name).to_owned(), (*value).to_owned()))
        .collect();
    vars.push(("FIAT_TRUSTED_LOCKS_PUBLIC_KEY".to_owned(), key_text()));
    vars.push((
        "FIAT_DATABASE_URL".to_owned(),
        " postgres://db ".to_owned(),
    ));
    Environment { vars }
}

fn refusal(extra: &[(&str, &str)]) -> String {
    Config::from_env(&env(extra)).unwrap_err().message()
}

#[test]
fn origin_list_accepts_exact_https_origins() {
    let origins = parse_origin_list(
        "https://shop.pubky.app, https://pubky-marketplace-staging.vercel.app , https://shop.example.com:8443",
    )
    .unwrap();
    assert_eq!(
        origins,
        vec![
            "https://shop.pubky.app",
            "https://pubky-marketplace-staging.vercel.app",
            "https://shop.example.com:8443",
        ]
    );
    // Empty list (unset var) is allowed: single-shop fallback mode.
    assert_eq!(parse_origin_list("").unwrap(), Vec::<String>::new());
}

#[test]
fn origin_list_rejects_invalid_entries() {
    for entry in [
        "http://shop.pubky.app",              // not https
        "https://shop.pubky.app/",            // trailing slash
        "https://shop.pubky.app/marketplace", // path
        "https://shop.pubky.app?x=1",         // query
        "https://shop.pubky.app#frag",        // fragment
        "https://user@shop.pubky.app",        // userinfo
        "https://shop.pubky.app:443",         // normalized default port
        "HTTPS://shop.pubky.app",             // normalized scheme case
        "shop.pubky.app",                     // no scheme
        "not a url",
    ] {
        assert!(
            parse_origin_list(entry).is_err(),
            "entry should be rejected: {entry}"
        );
    }
}

#[test]
fn parse_return_origin_is_the_canonical_comparison_key() {
    assert_eq!(
        parse_return_origin("https://shop.pubky.app").as_deref(),
        Some("https://shop.pubky.app")
    );
    // A lookalike parses as a valid origin of its own; allowlist
    // membership (string equality) is what rejects it.
    assert_eq!(
        parse_return_origin("https://shop.pubky.app.evil.com").as_deref(),
        Some("https://shop.pubky.app.evil.com")
    );
}

#[test]
fn origin_list_names_the_first_bad_entry() {
    match parse_origin_list("https://a.test,http://b.test,http://c.test") {
        Err(ConfigError::Invalid(name, reason)) => {
            assert_eq!(name, "BUYER_RETURN_ORIGINS");
            assert_eq!(
                reason,
                "'http://b.test' is not an exact https:// origin (scheme+host[+port] only)"
            );
        }
        other => panic!("{other:?}"),
    }
}

#[test]
fn origin_is_judged_by_its_parts() {
    let mut parts = UrlParts {
        scheme: "https".into(),
        username: String::new(),
        password: None,
        host: Some("a.test".into()),
        front: "https://a.test".into(),
        path: "/".into(),
        query: None,
        fragment: None,
    };
    let origin = "https://a.test";
    assert_eq!(
        origin_of_parts("https://a.test", &parts, origin).as_deref(),
        Some("https://a.test")
    );
    assert_eq!(origin_of_parts("https://A.test", &parts, origin), None);
    parts.password = Some("p".into());
    assert_eq!(origin_of_parts("https://a.test", &parts, origin), None);
}

#[test]
fn trusted_key_must_be_canonical() {
    let text = key_text();
    let key = ed25519_dalek::SigningKey::from_bytes(&[9_u8; 32]);
    assert!(parse_trusted_key(&text).is_ok());
    let bare = text.strip_prefix("pubky").unwrap();
    assert_eq!(
        parse_trusted_key(bare).unwrap_err().message(),
        "FIAT_TRUSTED_LOCKS_PUBLIC_KEY is invalid: must be the canonical pubky-prefixed spelling"
    );
    assert!(parse_trusted_key("nonsense").is_err());
    let bytes = key.verifying_key().to_bytes();
    assert!(key_of_spelling("a", "a", bytes).is_ok());
    assert!(key_of_spelling("a", "b", bytes).is_err());
}

#[test]
fn defaults_are_filled_in() {
    let config = Config::from_env(&env(&[])).unwrap();
    assert_eq!(config.bind_addr, "[::]:3002");
    assert_eq!(
        config.paykit_server_url.as_str(),
        "http://paykit-server.railway.internal:3001"
    );
    assert_eq!(config.database_url, "postgres://db");
    assert!(config.stripe.is_none());
    assert!(config.paypal.is_none());
    assert_eq!(config.default_processor, "stripe");
    assert_eq!(config.settlement_delay.as_secs(), 300);
    assert_eq!(config.synthesized_confirmations, 1);
    assert_eq!(config.poll_interval.as_secs(), 60);
    assert_eq!(config.allowed_assets, vec!["USD"]);
    assert_eq!(
        config.checkout_success_url,
        "https://staging.pubky.app/marketplace?checkout=return"
    );
    assert_eq!(
        config.checkout_cancel_url,
        "https://staging.pubky.app/marketplace?checkout=cancel"
    );
    assert!(config.buyer_return_origins.is_empty());
    assert_eq!(config.lock_resource_max_bytes, 10_000_000);
    assert_eq!(config.lock_fetch_timeout.as_secs(), 10);
    assert_eq!(config.checkout_rate_per_second, 5);
    assert_eq!(config.checkout_rate_burst, 20);
}

#[test]
fn values_are_read() {
    let config = Config::from_env(&env(&[
        ("PORT", "8080"),
        ("FIAT_PAYKIT_SERVER_URL", "https://paykit.test"),
        ("STRIPE_SECRET_KEY", " sk_test_1 "),
        ("STRIPE_WEBHOOK_SECRET", "  "),
        ("PAYPAL_CLIENT_ID", "id"),
        ("PAYPAL_CLIENT_SECRET", "secret"),
        ("PAYPAL_WEBHOOK_ID", "WH-1"),
        ("FIAT_DEFAULT_PROCESSOR", " PayPal "),
        ("FIAT_SETTLEMENT_DELAY_SECONDS", " 7 "),
        ("FIAT_ALLOWED_ASSETS", "USD, EUR,,"),
        ("BUYER_RETURN_ORIGINS", "https://a.test"),
    ]))
    .unwrap();
    assert_eq!(config.bind_addr, "[::]:8080");
    let stripe = config.stripe.unwrap();
    assert_eq!(stripe.secret_key, "sk_test_1");
    assert_eq!(stripe.webhook_secret, None);
    assert_eq!(stripe.api_base.as_str(), "https://api.stripe.com");
    let paypal = config.paypal.unwrap();
    assert_eq!(paypal.client_id, "id");
    assert_eq!(paypal.client_secret, "secret");
    assert_eq!(paypal.webhook_id.as_deref(), Some("WH-1"));
    assert_eq!(config.default_processor, "paypal");
    assert_eq!(config.settlement_delay.as_secs(), 7);
    assert_eq!(config.allowed_assets, vec!["USD", "EUR"]);
    assert_eq!(config.buyer_return_origins, vec!["https://a.test"]);
}

#[test]
fn listen_address_comes_before_the_port() {
    let config = Config::from_env(&env(&[
        ("PORT", "8080"),
        ("FIAT_LISTEN_ADDR", "127.0.0.1:1"),
    ]))
    .unwrap();
    assert_eq!(config.bind_addr, "127.0.0.1:1");
}

#[test]
fn live_keys_need_live_mode() {
    for key in ["sk_live_1", "rk_live_1"] {
        assert_eq!(
            refusal(&[("STRIPE_SECRET_KEY", key)]),
            "STRIPE_SECRET_KEY looks like a LIVE key; refusing to start without \
             FIAT_LIVE_MODE=true (staging is test-mode only by design)"
        );
        assert!(matches!(
            Config::from_env(&env(&[("STRIPE_SECRET_KEY", key), ("FIAT_LIVE_MODE", "1")])),
            Err(ConfigError::LiveKeyWithoutLiveMode)
        ));
        let live = [("STRIPE_SECRET_KEY", key), ("FIAT_LIVE_MODE", "true")];
        assert!(Config::from_env(&env(&live)).is_ok());
    }
}

#[test]
fn paypal_outside_the_sandbox_needs_live_mode() {
    let live = [
        ("PAYPAL_CLIENT_ID", "id"),
        ("PAYPAL_CLIENT_SECRET", "secret"),
        ("PAYPAL_API_BASE", "https://api-m.paypal.com"),
    ];
    assert_eq!(
        refusal(&live),
        "PAYPAL_API_BASE is not the PayPal sandbox; refusing to start without \
         FIAT_LIVE_MODE=true (staging is sandbox-only by design)"
    );
    let mut allowed = live.to_vec();
    allowed.push(("FIAT_LIVE_MODE", "true"));
    assert!(Config::from_env(&env(&allowed)).is_ok());
}

#[test]
fn invalid_values_are_named() {
    assert!(matches!(
        Config::from_env(&Environment { vars: vec![] }),
        Err(ConfigError::Missing("FIAT_TRUSTED_LOCKS_PUBLIC_KEY"))
    ));
    let mut missing = env(&[]);
    missing.vars.pop();
    assert_eq!(
        Config::from_env(&missing).unwrap_err().message(),
        "FIAT_DATABASE_URL is required"
    );
    for (name, value, reason) in [
        ("FIAT_PAYKIT_SERVER_URL", "ftp://x", "must be http(s)"),
        ("FIAT_PAYKIT_SERVER_URL", "x", "relative URL without a base"),
        ("FIAT_DEFAULT_PROCESSOR", "venmo", "must be 'stripe' or 'paypal'"),
        (
            "FIAT_SETTLEMENT_DELAY_SECONDS",
            "",
            "cannot parse integer from empty string",
        ),
        (
            "FIAT_SETTLEMENT_DELAY_SECONDS",
            "-1",
            "invalid digit found in string",
        ),
        (
            "FIAT_POLL_INTERVAL_SECONDS",
            "18446744073709551616",
            "number too large to fit in target type",
        ),
        ("FIAT_SYNTHESIZED_CONFIRMATIONS", "4294967296", "too large"),
        (
            "FIAT_ALLOWED_ASSETS",
            "USD,BTC",
            "must be comma-separated uppercase 3-letter fiat codes (never BTC)",
        ),
        (
            "FIAT_ALLOWED_ASSETS",
            "usd",
            "must be comma-separated uppercase 3-letter fiat codes (never BTC)",
        ),
        (
            "FIAT_CHECKOUT_RATE_BURST",
            "x",
            "invalid digit found in string",
        ),
    ] {
        assert_eq!(refusal(&[(name, value)]), format!("{name} is invalid: {reason}"));
    }
    assert_eq!(
        refusal(&[("PAYPAL_CLIENT_ID", "id")]),
        "PAYPAL_CLIENT_ID is invalid: PAYPAL_CLIENT_ID and PAYPAL_CLIENT_SECRET must be set together"
    );
}

#[test]
fn numerals_are_refused_as_the_standard_library_does() {
    for value in [
        "", "+", "-", "+7", "007", "1_0", "18446744073709551615", "18446744073709551616",
        "99999999999999999999x", "x99999999999999999999", "1\u{e9}",
    ] {
        let text = value.parse::<u64>();
        let read = Config::from_env(&env(&[("FIAT_CHECKOUT_RATE_BURST", value)]));
        match (text, read) {
            (Ok(number), Ok(config)) => assert_eq!(config.checkout_rate_burst, number),
            (Err(error), Err(refused)) => assert_eq!(
                refused.message(),
                format!("FIAT_CHECKOUT_RATE_BURST is invalid: {error}")
            ),
            other => panic!("{value}: {other:?}"),
        }
    }
}

#[test]
fn urls_are_edited_as_whole_values() {
    let url = WebUrl::parse("https://api.test/base?x=1").unwrap();
    assert_eq!(url.with_path("/v1/things/a b"), "https://api.test/v1/things/a%20b?x=1");
    assert_eq!(
        url.below(&vec!["v1".to_owned(), "a/b".to_owned()]),
        "https://api.test/base/v1/a%2Fb"
    );
    assert!(WebUrl::parse("not a url").is_err());
    let full = WebUrl::parse("https://u:p@API.test:8443/base/?x=1#f").unwrap();
    assert_eq!(full.serialization(), "https://u:p@api.test:8443/base/?x=1#f");
    assert_eq!(full.parts().front, "https://u:p@api.test:8443");
    assert_eq!(
        full.below(&vec!["v1".to_owned()]),
        "https://u:p@api.test:8443/base/v1"
    );
    let copy = url.copy();
    assert_eq!(copy.as_str(), url.as_str());
    assert_eq!(copy.parts().host.as_deref(), Some("api.test"));
}

#[test]
fn nested_blobs_are_no_origin() {
    let nested = "blob:".repeat(13_000);
    assert_eq!(parse_return_origin(&nested), None);
    assert_eq!(parse_return_origin(&format!("{nested}https://a.test")), None);
    assert!(parse_origin_list(&nested).is_err());
    assert!(refusal(&[("FIAT_PAYKIT_SERVER_URL", &nested)]).ends_with("must be http(s)"));
}

#[test]
fn origins_of_every_host_form_are_read() {
    for origin in [
        "https://a.test",
        "https://a.test:8443",
        "https://127.0.0.1",
        "https://[::1]:444",
        "https://xn--bcher-kva.test",
    ] {
        assert_eq!(parse_return_origin(origin).as_deref(), Some(origin));
    }
    for other in [
        "https://:@a.test",
        "https://@a.test",
        "https://:p@a.test",
        "https://[::0:1]",
        "https://127.1",
        "https://b\u{fc}cher.test",
    ] {
        assert_eq!(parse_return_origin(other), None, "{other}");
    }
}
