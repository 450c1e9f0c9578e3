//! Decimal numerals: how integers are written in requests and signatures, and
//! how configured values and signature timestamps are read back.

use crate::text;
use vstd::prelude::*;

verus! {

/// Why a numeral was refused.
#[derive(Clone, Copy, Debug, PartialEq, Eq, Structural)]
pub enum IntFault {
    Empty,
    InvalidDigit,
    TooLarge,
}

/// The character that stands for a digit.
pub open spec fn digit_char(digit: int) -> char {
    ('0' as int + digit) as char
}

/// Whether a character is an ASCII digit.
pub open spec fn is_digit(c: char) -> bool {
    '0' <= c <= '9'
}

/// Whether a text consists of ASCII digits.
pub open spec fn all_digits(s: Seq<char>) -> bool {
    forall|i: int| 0 <= i < s.len() ==> is_digit(#[trigger] s[i])
}

/// The numeral of a natural number, without leading zeros.
pub open spec fn digits(n: nat) -> Seq<char>
    decreases n,
{
    if n < 10 {
        seq![digit_char(n as int)]
    } else {
        digits(n / 10).push(digit_char((n % 10) as int))
    }
}

/// The numeral of an integer.
pub open spec fn decimal(n: int) -> Seq<char> {
    if n < 0 {
        seq!['-'] + digits((-n) as nat)
    } else {
        digits(n as nat)
    }
}

/// The number that a run of digits stands for, read from the left. The first
/// character that is no digit, or that lifts the number above `max`, decides.
pub open spec fn scan(s: Seq<char>, max: nat) -> Result<nat, IntFault>
    decreases s.len(),
{
    if s.len() == 0 {
        Ok(0nat)
    } else {
        match scan(s.drop_last(), max) {
            Err(fault) => Err(fault),
            Ok(front) => {
                if !is_digit(s.last()) {
                    Err(IntFault::InvalidDigit)
                } else {
                    let grown = front * 10 + (s.last() as nat - '0' as nat) as nat;
                    if grown > max {
                        Err(IntFault::TooLarge)
                    } else {
                        Ok(grown)
                    }
                }
            },
        }
    }
}

/// The value of an unsigned numeral: digits with an optional leading plus sign.
pub open spec fn unsigned_value(s: Seq<char>, max: nat) -> Result<nat, IntFault> {
    if s.len() == 0 {
        Err(IntFault::Empty)
    } else if s.len() == 1 && s[0] == '+' {
        Err(IntFault::InvalidDigit)
    } else if s[0] == '+' {
        scan(s.skip(1), max)
    } else {
        scan(s, max)
    }
}

/// The value of a signed numeral that fits in 64 bits.
pub open spec fn signed_value(s: Seq<char>) -> Option<int> {
    if s.len() > 1 && s[0] == '-' {
        match scan(s.skip(1), 0x8000_0000_0000_0000) {
            Ok(n) => Some(-(n as int)),
            Err(_) => None,
        }
    } else {
        match unsigned_value(s, 0x7fff_ffff_ffff_ffff) {
            Ok(n) => Some(n as int),
            Err(_) => None,
        }
    }
}

fn digit(d: u8) -> (c: char)
    requires
        d < 10,
    ensures
        c == digit_char(d as int),
{
    (48u8 + d) as char
}

fn push_digits(out: &mut String, n: u64)
    ensures
        final(out)@ == old(out)@ + digits(n as nat),
    decreases n,
{
    if n >= 10 {
        push_digits(out, n / 10);
    }
    let last: u8 = (n % 10) as u8;
    out.push(digit(last));
    assert(final(out)@ =~= old(out)@ + digits(n as nat));
}

/// Writes an unsigned integer.
pub fn decimal_u64(n: u64) -> (numeral: String)
    ensures
        numeral@ == decimal(n as int),
{
    let mut numeral: String = String::new();
    push_digits(&mut numeral, n);
    assert(numeral@ =~= digits(n as nat));
    numeral
}

/// Writes a signed integer.
pub fn decimal_i64(n: i64) -> (numeral: String)
    ensures
        numeral@ == decimal(n as int),
{
    if n >= 0 {
        return decimal_u64(n as u64);
    }
    let mut numeral: String = String::new();
    numeral.push('-');
    let size: u64 = if n == i64::MIN {
        0x8000_0000_0000_0000u64
    } else {
        (-n) as u64
    };
    push_digits(&mut numeral, size);
    assert(numeral@ =~= seq!['-'] + digits((-(n as int)) as nat));
    numeral
}

/// Whether every character is an ASCII digit.
pub fn only_digits(text: &str) -> (all: bool)
    ensures
        all == all_digits(text@),
{
    let chars: Vec<char> = text::chars_of(text);
    let mut i: usize = 0;
    while i < chars.len()
        invariant
            chars@ == text@,
            i <= chars@.len(),
            forall|j: int| 0 <= j < i ==> is_digit(#[trigger] text@[j]),
        decreases chars.len() - i,
    {
        let c: char = chars[i];
        if !(c >= '0' && c <= '9') {
            assert(!is_digit(text@[i as int]));
            return false;
        }
        i = i + 1;
    }
    true
}

proof fn lemma_scan_prefix_fault(s: Seq<char>, i: int, max: nat)
    requires
        0 <= i <= s.len(),
        scan(s.take(i), max) is Err,
    ensures
        scan(s, max) == scan(s.take(i), max),
    decreases s.len() - i,
{
    if i == s.len() {
        assert(s.take(i) =~= s);
    } else {
        assert(s.take(i + 1).drop_last() =~= s.take(i));
        lemma_scan_prefix_fault(s, i + 1, max);
    }
}

fn scan_digits(chars: &Vec<char>, from: usize, max: u64) -> (value: Result<u64, IntFault>)
    requires
        from <= chars@.len(),
    ensures
        match value {
            Ok(n) => scan(chars@.skip(from as int), max as nat) == Ok::<nat, IntFault>(n as nat),
            Err(fault) => scan(chars@.skip(from as int), max as nat) == Err::<nat, IntFault>(fault),
        },
{
    let ghost s = chars@.skip(from as int);
    let mut i: usize = from;
    let mut total: u64 = 0;
    while i < chars.len()
        invariant
            from <= i <= chars@.len(),
            s == chars@.skip(from as int),
            scan(s.take(i - from), max as nat) == Ok::<nat, IntFault>(total as nat),
        decreases chars.len() - i,
    {
        let c: char = chars[i];
        proof {
            assert(s.take(i - from + 1).drop_last() =~= s.take(i - from));
            assert(s.take(i - from + 1).last() == c);
        }
        if !(c >= '0' && c <= '9') {
            proof {
                lemma_scan_prefix_fault(s, i - from + 1, max as nat);
            }
            return Err(IntFault::InvalidDigit);
        }
        let grown: u128 = total as u128 * 10 + (c as u32 - 48) as u128;
        if grown > max as u128 {
            proof {
                lemma_scan_prefix_fault(s, i - from + 1, max as nat);
            }
            return Err(IntFault::TooLarge);
        }
        total = grown as u64;
        i = i + 1;
    }
    assert(s.take(i - from) =~= s);
    Ok(total)
}

/// Reads an unsigned numeral no larger than `max`.
pub fn parse_unsigned(text: &str, max: u64) -> (value: Result<u64, IntFault>)
    ensures
        match value {
            Ok(n) => unsigned_value(text@, max as nat) == Ok::<nat, IntFault>(n as nat),
            Err(fault) => unsigned_value(text@, max as nat) == Err::<nat, IntFault>(fault),
        },
{
    let chars: Vec<char> = text::chars_of(text);
    if chars.len() == 0 {
        return Err(IntFault::Empty);
    }
    if chars[0] == '+' {
        if chars.len() == 1 {
            return Err(IntFault::InvalidDigit);
        }
        return scan_digits(&chars, 1, max);
    }
    assert(chars@.skip(0) =~= chars@);
    scan_digits(&chars, 0, max)
}

/// Reads a signed 64-bit numeral.
pub fn parse_i64(text: &str) -> (value: Option<i64>)
    ensures
        match value {
            Some(n) => signed_value(text@) == Some(n as int),
            None => signed_value(text@) is None,
        },
{
    let chars: Vec<char> = text::chars_of(text);
    if chars.len() > 1 && chars[0] == '-' {
        return match scan_digits(&chars, 1, 0x8000_0000_0000_0000) {
            Ok(n) => {
                if n == 0x8000_0000_0000_0000 {
                    Some(i64::MIN)
                } else {
                    Some(-(n as i64))
                }
            },
            Err(_) => None,
        };
    }
    match parse_unsigned(text, 0x7fff_ffff_ffff_ffff) {
        Ok(n) => Some(n as i64),
        Err(_) => None,
    }
}

/// Numerals are never empty, and hold only digits.
pub proof fn lemma_digits(n: nat)
    ensures
        digits(n).len() > 0,
        all_digits(digits(n)),
    decreases n,
{
    if n >= 10 {
        lemma_digits(n / 10);
    }
}

/// A numeral is read back as the number it was written from.
pub proof fn lemma_scan_digits(n: nat, max: nat)
    requires
        n <= max,
    ensures
        scan(digits(n), max) == Ok::<nat, IntFault>(n),
    decreases n,
{
    reveal_with_fuel(scan, 2);
    if n < 10 {
        assert(digits(n).drop_last() =~= Seq::<char>::empty());
        assert(digits(n).last() == digit_char(n as int));
    } else {
        lemma_scan_digits(n / 10, max);
        assert(digits(n).drop_last() =~= digits(n / 10));
        assert(digits(n).last() == digit_char((n % 10) as int));
    }
}

/// Writing a 64-bit integer and reading it back gives the integer.
pub proof fn signed_round_trip(n: i64)
    ensures
        signed_value(decimal(n as int)) == Some(n as int),
{
    if n < 0 {
        let size = (-(n as int)) as nat;
        lemma_scan_digits(size, 0x8000_0000_0000_0000);
        lemma_digits(size);
        assert(decimal(n as int).skip(1) =~= digits(size));
    } else {
        lemma_scan_digits(n as nat, 0x7fff_ffff_ffff_ffff);
        lemma_digits(n as nat);
        assert(is_digit(digits(n as nat)[0]));
    }
}

/// The numerals of two integers are equal only if the integers are.
pub proof fn decimal_injective(a: i64, b: i64)
    requires
        decimal(a as int) == decimal(b as int),
    ensures
        a == b,
{
    signed_round_trip(a);
    signed_round_trip(b);
}

} // verus!
