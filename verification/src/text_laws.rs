//! How texts and numerals are read and written, character by character.

use crate::decimal;
use crate::decimal::IntFault;
use crate::error;
use crate::error::ApiError;
use crate::text;
use crate::web_url;
use crate::web_url::UrlModel;
use crate::wire::StatusKind;
use crate::wire::TransactionStatus;
use vstd::prelude::*;

verus! {

/// White space in ASCII is the space and the five controls from the tab on.
pub proof fn white_space_in_ascii(c: char)
    requires
        (c as u32) < 0x80,
    ensures
        text::is_space(c) <==> c == ' ' || c == '\t' || c == '\n' || c == '\x0b' || c == '\x0c' || c
            == '\r',
{
}

/// White space before and behind a text is trimmed, and nothing else is.
pub proof fn white_space_is_trimmed(before: Seq<char>, kept: Seq<char>, behind: Seq<char>)
    requires
        forall|i: int| 0 <= i < before.len() ==> text::is_space(#[trigger] before[i]),
        forall|i: int| 0 <= i < behind.len() ==> text::is_space(#[trigger] behind[i]),
        kept.len() > 0 ==> !text::is_space(kept[0]) && !text::is_space(kept.last()),
    ensures
        text::trim(before + kept + behind) == kept,
    decreases before.len(),
{
    let whole = before + kept + behind;
    if before.len() > 0 {
        let rest = before.skip(1);
        assert forall|i: int| 0 <= i < rest.len() implies text::is_space(#[trigger] rest[i]) by {
            assert(rest[i] == before[i + 1]);
        }
        assert(text::is_space(before[0]));
        assert(whole[0] == before[0]);
        assert(whole.skip(1) =~= rest + kept + behind);
        white_space_is_trimmed(rest, kept, behind);
    } else if kept.len() > 0 {
        assert(whole =~= kept + behind);
        assert(whole[0] == kept[0]);
        lemma_trim_end(kept, behind);
    } else {
        assert(whole =~= behind);
        lemma_trim_all(behind);
        assert(kept =~= Seq::empty());
    }
}

proof fn lemma_trim_end(kept: Seq<char>, behind: Seq<char>)
    requires
        forall|i: int| 0 <= i < behind.len() ==> text::is_space(#[trigger] behind[i]),
        kept.len() > 0,
        !text::is_space(kept.last()),
    ensures
        text::trim_end(kept + behind) == kept,
    decreases behind.len(),
{
    let whole = kept + behind;
    if behind.len() > 0 {
        assert(text::is_space(behind[behind.len() - 1]));
        assert(whole.last() == behind.last());
        assert(whole.drop_last() =~= kept + behind.drop_last());
        assert forall|i: int| 0 <= i < behind.drop_last().len() implies text::is_space(
            #[trigger] behind.drop_last()[i],
        ) by {
            assert(behind.drop_last()[i] == behind[i]);
        }
        lemma_trim_end(kept, behind.drop_last());
    } else {
        assert(whole =~= kept);
    }
}

proof fn lemma_trim_all(spaces: Seq<char>)
    requires
        forall|i: int| 0 <= i < spaces.len() ==> text::is_space(#[trigger] spaces[i]),
    ensures
        text::trim_start(spaces) == Seq::<char>::empty(),
        text::trim_end(Seq::empty()) == Seq::<char>::empty(),
    decreases spaces.len(),
{
    if spaces.len() > 0 {
        let rest = spaces.skip(1);
        assert(text::is_space(spaces[0]));
        assert forall|i: int| 0 <= i < rest.len() implies text::is_space(#[trigger] rest[i]) by {
            assert(rest[i] == spaces[i + 1]);
        }
        lemma_trim_all(rest);
    } else {
        assert(spaces =~= Seq::empty());
    }
}

/// A text is split at every separator: two texts with a separator between them
/// have the parts of the one and then the parts of the other.
pub proof fn texts_are_split_everywhere(left: Seq<char>, separator: char, right: Seq<char>)
    ensures
        text::split_all(left.push(separator) + right, separator) == text::split_all(left, separator)
            + text::split_all(right, separator),
        !left.contains(separator) ==> text::split_all(left, separator) == seq![left],
    decreases left.len(),
{
    text::lemma_split_once(left, separator);
    match text::split_once(left, separator) {
        Some((before, after)) => {
            texts_are_split_everywhere(after, separator, right);
            let whole = left.push(separator) + right;
            let rest = after.push(separator) + right;
            assert(whole =~= before.push(separator) + rest);
            text::lemma_split_once_unique(before, separator, rest);
            assert(text::split_all(whole, separator) =~= seq![before] + text::split_all(
                rest,
                separator,
            ));
            assert(text::split_all(left, separator) =~= seq![before] + text::split_all(
                after,
                separator,
            ));
        },
        None => {
            text::lemma_split_once_unique(left, separator, right);
            assert(text::split_all(left.push(separator) + right, separator) =~= seq![left]
                + text::split_all(right, separator));
        },
    }
}

/// A prefix is taken off a text that begins with it, and no other text is
/// changed.
pub proof fn prefixes_are_taken_off(prefix: Seq<char>, rest: Seq<char>, other: Seq<char>)
    ensures
        text::has_prefix(prefix + rest, prefix),
        text::without_prefix(prefix + rest, prefix) == rest,
        text::has_prefix(other, prefix) <==> other.len() >= prefix.len() && other.take(
            prefix.len() as int,
        ) == prefix,
        !text::has_prefix(other, prefix) ==> text::without_prefix(other, prefix) == other,
{
    let whole = prefix + rest;
    assert(whole.subrange(0, prefix.len() as int) =~= prefix);
    assert(whole.skip(prefix.len() as int) =~= rest);
    if other.len() >= prefix.len() {
        assert(other.subrange(0, prefix.len() as int) =~= other.take(prefix.len() as int));
    }
}

/// A text with something around it.
pub open spec fn surrounded(before: Seq<char>, part: Seq<char>, behind: Seq<char>) -> Seq<char> {
    before + part + behind
}

/// A text holds another one exactly if it is that one with something around it.
pub proof fn texts_hold_their_parts(whole: Seq<char>, part: Seq<char>)
    ensures
        text::holds_text(whole, part) <==> exists|before: Seq<char>, behind: Seq<char>|
            whole == #[trigger] surrounded(before, part, behind),
{
    if text::holds_text(whole, part) {
        let at = choose|at: int| text::occurs_at(whole, part, at);
        let before = whole.take(at);
        let behind = whole.skip(at + part.len());
        assert(whole =~= surrounded(before, part, behind)) by {
            assert(whole =~= before + whole.subrange(at, at + part.len()) + behind);
        }
    }
    if exists|before: Seq<char>, behind: Seq<char>|
        whole == #[trigger] surrounded(before, part, behind) {
        let (before, behind) = choose|before: Seq<char>, behind: Seq<char>|
            whole == #[trigger] surrounded(before, part, behind);
        let at = before.len() as int;
        assert(whole.subrange(at, at + part.len()) =~= part);
        assert(text::occurs_at(whole, part, at));
    }
}

proof fn lemma_scan_large(n: nat, max: nat)
    requires
        n > max,
    ensures
        decimal::scan(decimal::digits(n), max) == Err::<nat, IntFault>(IntFault::TooLarge),
    decreases n,
{
    reveal_with_fuel(decimal::scan, 2);
    if n < 10 {
        assert(decimal::digits(n).drop_last() =~= Seq::<char>::empty());
        assert(decimal::digits(n).last() == decimal::digit_char(n as int));
    } else {
        assert(decimal::digits(n).drop_last() =~= decimal::digits(n / 10));
        assert(decimal::digits(n).last() == decimal::digit_char((n % 10) as int));
        if n / 10 > max {
            lemma_scan_large(n / 10, max);
        } else {
            decimal::lemma_scan_digits(n / 10, max);
        }
    }
}

proof fn lemma_scanned_digits(numeral: Seq<char>, max: nat)
    ensures
        decimal::scan(numeral, max) is Ok ==> forall|i: int|
            0 <= i < numeral.len() ==> '0' <= #[trigger] numeral[i] <= '9',
    decreases numeral.len(),
{
    if numeral.len() > 0 {
        let front = numeral.drop_last();
        lemma_scanned_digits(front, max);
        if decimal::scan(numeral, max) is Ok {
            assert forall|i: int| 0 <= i < numeral.len() implies '0' <= #[trigger] numeral[i]
                <= '9' by {
                if i < front.len() {
                    assert(front[i] == numeral[i]);
                }
            }
        }
    }
}

/// An unsigned numeral is read as its number, with or without a plus sign, if
/// that does not exceed the bound, and is too large otherwise.
pub proof fn unsigned_numerals_are_read(n: nat, max: nat)
    ensures
        ({
            let read = if n <= max {
                Ok(n)
            } else {
                Err(IntFault::TooLarge)
            };
            &&& decimal::unsigned_value(decimal::decimal(n as int), max) == read
            &&& decimal::unsigned_value(seq!['+'] + decimal::decimal(n as int), max) == read
        }),
        decimal::unsigned_value(Seq::empty(), max) == Err::<nat, IntFault>(IntFault::Empty),
        decimal::unsigned_value(seq!['+'], max) == Err::<nat, IntFault>(IntFault::InvalidDigit),
{
    let numeral = decimal::decimal(n as int);
    let signed = seq!['+'] + numeral;
    decimal::lemma_digits(n);
    assert(decimal::is_digit(numeral[0]));
    assert(signed.skip(1) =~= numeral);
    if n <= max {
        decimal::lemma_scan_digits(n, max);
    } else {
        lemma_scan_large(n, max);
    }
}

/// A signed numeral is read as its number if that fits in sixty-four bits; a
/// text with anything but digits behind its sign is read as none.
pub proof fn signed_numerals_are_read(n: int, numeral: Seq<char>)
    ensures
        i64::MIN <= n <= i64::MAX ==> decimal::signed_value(decimal::decimal(n)) == Some(n),
        !(i64::MIN <= n <= i64::MAX) ==> decimal::signed_value(decimal::decimal(n)) is None,
        0 <= n <= i64::MAX ==> decimal::signed_value(seq!['+'] + decimal::decimal(n)) == Some(n),
        decimal::signed_value(numeral) is Some ==> {
            &&& numeral.len() > 0
            &&& forall|i: int| 1 <= i < numeral.len() ==> '0' <= #[trigger] numeral[i] <= '9'
            &&& '0' <= numeral[0] <= '9' || (numeral.len() > 1 && (numeral[0] == '-' || numeral[0]
                == '+'))
        },
{
    if i64::MIN <= n <= i64::MAX {
        decimal::signed_round_trip(n as i64);
    }
    if n >= 0 {
        unsigned_numerals_are_read(n as nat, 0x7fff_ffff_ffff_ffff);
        decimal::lemma_digits(n as nat);
        let written = decimal::decimal(n);
        assert(decimal::is_digit(written[0]));
    } else {
        let size = (-n) as nat;
        let written = decimal::decimal(n);
        decimal::lemma_digits(size);
        assert(written.skip(1) =~= decimal::digits(size));
        if size > 0x8000_0000_0000_0000 {
            lemma_scan_large(size, 0x8000_0000_0000_0000);
        }
    }
    if decimal::signed_value(numeral) is Some {
        let behind = numeral.skip(1);
        if numeral[0] == '-' || numeral[0] == '+' {
            lemma_scanned_digits(behind, 0x8000_0000_0000_0000);
            lemma_scanned_digits(behind, 0x7fff_ffff_ffff_ffff);
            lemma_scanned_digits(numeral, 0x7fff_ffff_ffff_ffff);
            assert forall|i: int| 1 <= i < numeral.len() implies '0' <= #[trigger] numeral[i]
                <= '9' by {
                assert(behind[i - 1] == numeral[i]);
            }
        } else {
            lemma_scanned_digits(numeral, 0x7fff_ffff_ffff_ffff);
        }
    }
}

/// A segment is appended to a path behind a slash; the root brings its own.
pub proof fn segments_are_appended(path: Seq<char>, segments: Seq<Seq<char>>, segment: Seq<char>)
    ensures
        web_url::slash_joined(path, Seq::empty()) == path,
        web_url::slash_joined("/"@, seq![segment]) == "/"@ + segment,
        web_url::slash_joined(path, segments).len() != 1 ==> web_url::slash_joined(
            path,
            segments.push(segment),
        ) == web_url::slash_joined(path, segments) + "/"@ + segment,
{
    reveal_strlit("/");
    assert(segments.push(segment).drop_last() =~= segments);
    assert(seq![segment].drop_last() =~= Seq::<Seq<char>>::empty());
    assert(web_url::slash_joined("/"@, Seq::empty()) == "/"@);
    assert(web_url::slash_joined(path, segments).push('/') =~= web_url::slash_joined(path, segments)
        + "/"@);
}

/// No two errors share a code, and the status says whose fault an error is:
/// that of the request, or that of the gateway where it is unavailable.
pub proof fn errors_are_told_apart(a: ApiError, b: ApiError)
    ensures
        a != b ==> error::envelope(a).1 != error::envelope(b).1,
        error::envelope(a).0 == 503 <==> a == ApiError::Unavailable,
        a != ApiError::Unavailable ==> 400 <= error::envelope(a).0 < 500,
        error::envelope(a).0 == 401 <==> a == ApiError::InvalidSignature,
        error::envelope(a).0 == 404 <==> a == ApiError::NotFound || a == ApiError::LockNotFound,
        error::envelope(a).0 == 409 <==> a == ApiError::InvoiceConflict,
        error::envelope(a).0 == 429 <==> a == ApiError::RateLimited,
        error::envelope(a).0 == 400 <==> a == ApiError::InvalidRequest || a
            == ApiError::InvalidReturnOrigin,
{
    reveal_strlit("invalid_request");
    reveal_strlit("invalid_signature");
    reveal_strlit("invalid_return_origin");
    reveal_strlit("rate_limited");
    reveal_strlit("not_found");
    reveal_strlit("lock_not_found");
    reveal_strlit("invoice_conflict");
    reveal_strlit("fiat_unavailable");
    assert("invalid_request"@.len() == 15 && "invalid_signature"@.len() == 17);
    assert("invalid_return_origin"@.len() == 21 && "rate_limited"@.len() == 12);
    assert("not_found"@.len() == 9 && "lock_not_found"@.len() == 14);
    assert("invoice_conflict"@.len() == 16 && "fiat_unavailable"@.len() == 16);
    assert("invoice_conflict"@[0] == 'i' && "fiat_unavailable"@[0] == 'f');
}

proof fn lemma_kind_names(a: StatusKind, b: StatusKind)
    ensures
        !a.name().contains('"'),
        a.name() == b.name() ==> a == b,
{
    reveal_strlit("undetected");
    reveal_strlit("detected");
    reveal_strlit("confirmed");
    assert("undetected"@.len() == 10 && "detected"@.len() == 8 && "confirmed"@.len() == 9);
    assert(!"undetected"@.contains('"'));
    assert(!"detected"@.contains('"'));
    assert(!"confirmed"@.contains('"'));
}

/// The number of confirmations and the amount check as they are written.
spec fn tail_text(status: TransactionStatus) -> Seq<char> {
    decimal::decimal(status.confirmations as int) + (if status.amount_matched {
        ",\"amount_matched\":true}"@
    } else {
        ",\"amount_matched\":false}"@
    })
}

proof fn lemma_tail(status: TransactionStatus)
    ensures
        text::split_once(tail_text(status), ',') matches Some((numeral, rest)) && numeral
            == decimal::decimal(status.confirmations as int) && rest.len() == (if status.amount_matched {
            22int
        } else {
            23int
        }),
        text::split_once(
            status.wire_text().skip(11),
            '"',
        ) == Some((status.status.name(), ",\"confirmations\":"@ + tail_text(status))),
{
    reveal_strlit("{\"status\":\"");
    reveal_strlit("\",\"confirmations\":");
    reveal_strlit(",\"confirmations\":");
    reveal_strlit(",\"amount_matched\":true}");
    reveal_strlit(",\"amount_matched\":false}");
    let numeral = decimal::decimal(status.confirmations as int);
    decimal::lemma_digits(status.confirmations as nat);
    if numeral.contains(',') {
        let i = numeral.index_of(',');
        assert(decimal::is_digit(numeral[i]));
    }
    let end = if status.amount_matched {
        ",\"amount_matched\":true}"@
    } else {
        ",\"amount_matched\":false}"@
    };
    assert(",\"amount_matched\":true}"@.len() == 23 && ",\"amount_matched\":true}"@[0] == ',');
    assert(",\"amount_matched\":false}"@.len() == 24 && ",\"amount_matched\":false}"@[0] == ',');
    assert(tail_text(status) =~= numeral.push(',') + end.skip(1));
    text::lemma_split_once_unique(numeral, ',', end.skip(1));
    let name = status.status.name();
    lemma_kind_names(status.status, status.status);
    let rest = ",\"confirmations\":"@ + tail_text(status);
    assert("{\"status\":\""@.len() == 11);
    assert("\",\"confirmations\":"@ =~= seq!['"'] + ",\"confirmations\":"@);
    assert(status.wire_text().skip(11) =~= name.push('"') + rest);
    text::lemma_split_once_unique(name, '"', rest);
}

/// What the Lock Server is told determines the status: no two are written the
/// same.
pub proof fn statuses_are_told_apart(a: TransactionStatus, b: TransactionStatus)
    requires
        a.wire_text() == b.wire_text(),
    ensures
        a == b,
{
    lemma_tail(a);
    lemma_tail(b);
    lemma_kind_names(a.status, b.status);
    let lead = ",\"confirmations\":"@;
    assert((lead + tail_text(a)).skip(lead.len() as int) =~= tail_text(a));
    assert((lead + tail_text(b)).skip(lead.len() as int) =~= tail_text(b));
    decimal::decimal_injective(a.confirmations as i64, b.confirmations as i64);
}

/// A URL is written as its parts one after the other, the query behind a
/// question mark and the fragment behind a number sign.
pub proof fn urls_are_written_part_by_part(parts: UrlModel, query: Seq<char>, fragment: Seq<char>)
    ensures
        parts.query == Some(query) && parts.fragment == Some(fragment) ==> web_url::url_text(parts)
            == parts.front + parts.path + "?"@ + query + "#"@ + fragment,
        parts.query is None && parts.fragment is None ==> web_url::url_text(parts) == parts.front
            + parts.path,
{
    reveal_strlit("?");
    reveal_strlit("#");
    if parts.query == Some(query) && parts.fragment == Some(fragment) {
        assert(web_url::url_text(parts) =~= parts.front + parts.path + "?"@ + query + "#"@
            + fragment);
    }
    if parts.query is None && parts.fragment is None {
        assert(web_url::url_text(parts) =~= parts.front + parts.path);
    }
}

/// A URL below another one has its front, and neither its query nor its
/// fragment; a trailing slash of the path makes no difference, unless it is the
/// root.
pub proof fn urls_below_drop_the_query(
    parts: UrlModel,
    path: Seq<char>,
    segments: Seq<Seq<char>>,
)
    ensures
        web_url::url_text(web_url::parts_below(parts, segments)) == parts.front
            + web_url::parts_below(parts, segments).path,
        path.len() > 0 ==> web_url::without_last_slash(path + "/"@) == path,
        web_url::without_last_slash("/"@) == "/"@,
        path.len() > 0 && path.last() != '/' ==> web_url::without_last_slash(path) == path,
        path.len() > 0 && parts.path == path + "/"@ ==> web_url::parts_below(parts, segments).path
            == web_url::extended_path(path, segments),
{
    reveal_strlit("/");
    urls_are_written_part_by_part(
        web_url::parts_below(parts, segments),
        Seq::empty(),
        Seq::empty(),
    );
    if path.len() > 0 {
        assert((path + "/"@).last() == '/');
        assert((path + "/"@).drop_last() =~= path);
    }
}

} // verus!
