use fiat_verifier::decimal::{decimal_i64, decimal_u64, only_digits, parse_i64, parse_unsigned, IntFault};
use fiat_verifier::paypal::{decimal_to_minor, minor_to_decimal};

#[test]
fn converts_minor_units_to_paypal_decimal() {
    assert_eq!(minor_to_decimal("USD", 1999), "19.99");
    assert_eq!(minor_to_decimal("USD", 100), "1.00");
    assert_eq!(minor_to_decimal("USD", 5), "0.05");
    assert_eq!(minor_to_decimal("JPY", 500), "500");
}

#[test]
fn converts_paypal_decimal_to_minor_units() {
    assert_eq!(decimal_to_minor("USD", "19.99"), Some(1999));
    assert_eq!(decimal_to_minor("USD", "19.9"), Some(1990));
    assert_eq!(decimal_to_minor("USD", "19"), Some(1900));
    assert_eq!(decimal_to_minor("USD", "0.05"), Some(5));
    assert_eq!(decimal_to_minor("JPY", "500"), Some(500));
    assert_eq!(decimal_to_minor("JPY", "500.00"), Some(500));
}

#[test]
fn rejects_malformed_decimal_amounts() {
    assert_eq!(decimal_to_minor("USD", ""), None);
    assert_eq!(decimal_to_minor("USD", "19.999"), None);
    assert_eq!(decimal_to_minor("USD", "-1.00"), None);
    assert_eq!(decimal_to_minor("USD", "1,00"), None);
    assert_eq!(decimal_to_minor("USD", ".99"), None);
    assert_eq!(decimal_to_minor("JPY", "500.50"), None);
}

#[test]
fn round_trip_matches_the_criterion() {
    for minor in [1, 99, 100, 1999, 123_456_789] {
        assert_eq!(
            decimal_to_minor("USD", &minor_to_decimal("USD", minor)),
            Some(minor)
        );
    }
}

#[test]
fn amounts_at_the_limits() {
    assert_eq!(minor_to_decimal("USD", i64::MAX), "92233720368547758.07");
    assert_eq!(
        decimal_to_minor("USD", "92233720368547758.07"),
        Some(i64::MAX)
    );
    assert_eq!(decimal_to_minor("USD", "92233720368547758.08"), None);
    assert_eq!(decimal_to_minor("USD", "9223372036854775808"), None);
    assert_eq!(decimal_to_minor("XPF", "9223372036854775807"), Some(i64::MAX));
    assert_eq!(decimal_to_minor("USD", "1.2.3"), None);
    assert_eq!(decimal_to_minor("USD", "+1"), None);
    assert_eq!(decimal_to_minor("USD", "1."), Some(100));
}

#[test]
fn negative_amounts_are_written_by_their_parts() {
    for minor in [-1_i64, -99, -100, -150, -1999, i64::MIN] {
        assert_eq!(
            minor_to_decimal("USD", minor),
            format!("{}.{:02}", minor / 100, minor % 100)
        );
    }
    assert_eq!(minor_to_decimal("KRW", -7), "-7");
}

#[test]
fn numerals_match_the_standard_library() {
    for n in [0_i64, 7, -7, 10, -10, i64::MAX, i64::MIN] {
        assert_eq!(decimal_i64(n), n.to_string());
        assert_eq!(parse_i64(&n.to_string()), Some(n));
    }
    assert_eq!(decimal_u64(u64::MAX), u64::MAX.to_string());
    for text in ["", "+", "-", "+5", "--5", "9223372036854775808", "-9223372036854775809", "5x"] {
        assert_eq!(parse_i64(text), text.parse::<i64>().ok());
    }
    assert_eq!(parse_unsigned("12", 11), Err(IntFault::TooLarge));
    assert_eq!(parse_unsigned("12x", 100), Err(IntFault::InvalidDigit));
    assert_eq!(parse_unsigned("", 100), Err(IntFault::Empty));
    assert!(only_digits("0123456789") && !only_digits("1a") && only_digits(""));
}
