//! Amounts: criterion minor units on one side, the decimal strings of the
//! PayPal API on the other.

use crate::decimal;
use crate::text;
use vstd::prelude::*;

verus! {

/// ISO 4217 currencies without a minor unit. Every other asset is treated as
/// having two decimal places.
pub open spec fn is_zero_decimal(asset: Seq<char>) -> bool {
    ||| asset == "BIF"@
    ||| asset == "CLP"@
    ||| asset == "DJF"@
    ||| asset == "GNF"@
    ||| asset == "JPY"@
    ||| asset == "KMF"@
    ||| asset == "KRW"@
    ||| asset == "MGA"@
    ||| asset == "PYG"@
    ||| asset == "RWF"@
    ||| asset == "UGX"@
    ||| asset == "VND"@
    ||| asset == "VUV"@
    ||| asset == "XAF"@
    ||| asset == "XOF"@
    ||| asset == "XPF"@
}

fn zero_decimal(asset: &str) -> (found: bool)
    ensures
        found == is_zero_decimal(asset@),
{
    text::same_text(asset, "BIF") || text::same_text(asset, "CLP") || text::same_text(asset, "DJF")
        || text::same_text(asset, "GNF") || text::same_text(asset, "JPY") || text::same_text(
        asset,
        "KMF",
    ) || text::same_text(asset, "KRW") || text::same_text(asset, "MGA") || text::same_text(
        asset,
        "PYG",
    ) || text::same_text(asset, "RWF") || text::same_text(asset, "UGX") || text::same_text(
        asset,
        "VND",
    ) || text::same_text(asset, "VUV") || text::same_text(asset, "XAF") || text::same_text(
        asset,
        "XOF",
    ) || text::same_text(asset, "XPF")
}

/// Division by a hundred, rounded toward zero.
pub open spec fn hundreds(minor: int) -> int {
    if minor >= 0 {
        minor / 100
    } else {
        -((-minor) / 100)
    }
}

/// A number in at least two characters.
pub open spec fn two_places(n: int) -> Seq<char> {
    if 0 <= n < 10 {
        seq!['0'] + decimal::decimal(n)
    } else {
        decimal::decimal(n)
    }
}

/// The decimal string of an amount in minor units.
pub open spec fn decimal_amount(asset: Seq<char>, minor: int) -> Seq<char> {
    if is_zero_decimal(asset) {
        decimal::decimal(minor)
    } else {
        decimal::decimal(hundreds(minor)).push('.') + two_places(minor - 100 * hundreds(minor))
    }
}

/// The hundredths that a string of at most two digits after the point stands
/// for.
pub open spec fn hundredths(frac: Seq<char>) -> int {
    if frac.len() == 0 {
        0
    } else if frac.len() == 1 {
        (frac[0] as int - '0' as int) * 10
    } else {
        (frac[0] as int - '0' as int) * 10 + (frac[1] as int - '0' as int)
    }
}

/// The whole and the fractional part of a decimal string.
pub open spec fn amount_parts(value: Seq<char>) -> (Seq<char>, Seq<char>) {
    match text::split_once(value, '.') {
        Some(parts) => parts,
        None => (value, Seq::empty()),
    }
}

/// The minor units that a decimal string stands for. Malformed values and
/// fractions of zero-decimal assets are refused rather than rounded.
pub open spec fn minor_amount(asset: Seq<char>, value: Seq<char>) -> Option<int> {
    let (whole, frac) = amount_parts(value);
    if whole.len() == 0 || !decimal::all_digits(whole) || !decimal::all_digits(frac) {
        None
    } else {
        match decimal::scan(whole, i64::MAX as nat) {
            Err(_) => None,
            Ok(units) => {
                if is_zero_decimal(asset) {
                    if forall|i: int| 0 <= i < frac.len() ==> frac[i] == '0' {
                        Some(units as int)
                    } else {
                        None
                    }
                } else if frac.len() > 2 || units * 100 + hundredths(frac) > i64::MAX {
                    None
                } else {
                    Some(units * 100 + hundredths(frac))
                }
            },
        }
    }
}

/// Criterion minor units as a PayPal decimal string (1999 USD is `19.99`).
pub fn minor_to_decimal(asset: &str, minor: i64) -> (value: String)
    ensures
        value@ == decimal_amount(asset@, minor as int),
{
    if zero_decimal(asset) {
        return decimal::decimal_i64(minor);
    }
    let whole: i64 = minor / 100;
    let rest: i64 = minor % 100;
    assert(whole == hundreds(minor as int));
    let mut value: String = decimal::decimal_i64(whole);
    value.push('.');
    if rest >= 0 && rest < 10 {
        value.push('0');
    }
    value.append(&decimal::decimal_i64(rest));
    assert(value@ =~= decimal_amount(asset@, minor as int));
    value
}

/// Whether every character is the digit zero.
pub fn all_zeros(text: &str) -> (all: bool)
    ensures
        all == (forall|i: int| 0 <= i < text@.len() ==> text@[i] == '0'),
{
    let chars: Vec<char> = text::chars_of(text);
    let mut i: usize = 0;
    while i < chars.len()
        invariant
            chars@ == text@,
            i <= chars@.len(),
            forall|j: int| 0 <= j < i ==> text@[j] == '0',
        decreases chars.len() - i,
    {
        if chars[i] != '0' {
            return false;
        }
        i = i + 1;
    }
    true
}

/// A PayPal decimal string as minor units.
pub fn decimal_to_minor(asset: &str, value: &str) -> (minor: Option<i64>)
    ensures
        match minor {
            Some(minor) => minor_amount(asset@, value@) == Some(minor as int),
            None => minor_amount(asset@, value@) is None,
        },
{
    let (whole, frac): (String, String) = match text::split_at_first(value, '.') {
        Some(parts) => parts,
        None => (value.to_owned(), String::new()),
    };
    if whole.unicode_len() == 0 || !decimal::only_digits(&whole) || !decimal::only_digits(&frac) {
        return None;
    }
    assert(decimal::is_digit(whole@[0]));
    let units: u64 = match decimal::parse_unsigned(&whole, i64::MAX as u64) {
        Ok(units) => units,
        Err(_) => return None,
    };
    proof {
        lemma_scan_bound(whole@, i64::MAX as nat);
    }
    if zero_decimal(asset) {
        if all_zeros(&frac) {
            return Some(units as i64);
        }
        return None;
    }
    let places: Vec<char> = text::chars_of(&frac);
    if places.len() > 2 {
        return None;
    }
    let mut cents: u64 = 0;
    if places.len() > 0 {
        assert(decimal::is_digit(frac@[0]));
        cents = (places[0] as u64 - 48) * 10;
    }
    if places.len() > 1 {
        assert(decimal::is_digit(frac@[1]));
        cents = cents + (places[1] as u64 - 48);
    }
    assert(cents == hundredths(frac@));
    let total: u128 = units as u128 * 100 + cents as u128;
    if total > i64::MAX as u128 {
        return None;
    }
    Some(total as i64)
}

/// What is read from digits is no larger than the bound.
pub proof fn lemma_scan_bound(s: Seq<char>, max: nat)
    ensures
        decimal::scan(s, max) matches Ok(n) ==> n <= max,
    decreases s.len(),
{
    if s.len() > 0 {
        lemma_scan_bound(s.drop_last(), max);
    }
}

/// An amount written out for the processor and read back is the same amount,
/// for every asset.
pub proof fn amount_round_trip(asset: Seq<char>, minor: int)
    requires
        0 <= minor <= i64::MAX,
    ensures
        minor_amount(asset, decimal_amount(asset, minor)) == Some(minor),
{
    let max = i64::MAX as nat;
    let value = decimal_amount(asset, minor);
    if is_zero_decimal(asset) {
        decimal::lemma_digits(minor as nat);
        decimal::lemma_scan_digits(minor as nat, max);
        text::lemma_split_once(value, '.');
        if value.contains('.') {
            let i = value.index_of('.');
            assert(decimal::is_digit(value[i]));
        }
    } else {
        let units = (minor / 100) as nat;
        let rest = minor % 100;
        let front = decimal::digits(units);
        let back = two_places(rest);
        decimal::lemma_digits(units);
        decimal::lemma_scan_digits(units, max);
        if front.contains('.') {
            let i = front.index_of('.');
            assert(decimal::is_digit(front[i]));
        }
        text::lemma_split_once_unique(front, '.', back);
        reveal_with_fuel(decimal::digits, 2);
        assert(back.len() == 2);
        assert(decimal::all_digits(back));
        assert(hundredths(back) == rest);
    }
}

} // verus!
