//! Text as a sequence of characters: comparison, splitting, trimming and the
//! ASCII case rules that the rest of the library states its contracts with.

use vstd::prelude::*;
use vstd::utf8::*;

verus! {

/// `String::push` appends one character at the end.
pub assume_specification[ String::push ](target: &mut String, c: char)
    ensures
        final(target)@ == old(target)@.push(c),
;

/// The text of an optional string.
pub open spec fn text_opt(text: Option<String>) -> Option<Seq<char>> {
    match text {
        Some(text) => Some(text@),
        None => None,
    }
}

/// The texts of a list of strings.
pub open spec fn texts(list: Seq<String>) -> Seq<Seq<char>> {
    Seq::new(list.len(), |i: int| list[i]@)
}

/// The characters of `text`, in order.
pub fn chars_of(text: &str) -> (chars: Vec<char>)
    ensures
        chars@ == text@,
{
    let mut chars: Vec<char> = Vec::new();
    for c in it: text.chars()
        invariant
            chars@ == text@.take(it.index()),
            it.seq() == text@,
    {
        chars.push(c);
        assert(chars@ =~= text@.take(it.index() + 1));
    }
    assert(text@.take(text@.len() as int) =~= text@);
    chars
}

/// The string made of `chars[from..to]`.
pub fn string_of(chars: &Vec<char>, from: usize, to: usize) -> (text: String)
    requires
        from <= to <= chars@.len(),
    ensures
        text@ == chars@.subrange(from as int, to as int),
{
    let mut text: String = String::new();
    let mut i: usize = from;
    while i < to
        invariant
            from <= i <= to <= chars@.len(),
            text@ == chars@.subrange(from as int, i as int),
        decreases to - i,
    {
        text.push(chars[i]);
        i = i + 1;
        assert(text@ =~= chars@.subrange(from as int, i as int));
    }
    text
}

/// Two texts with the same UTF-8 bytes are the same text.
pub proof fn lemma_utf8_injective(a: Seq<char>, b: Seq<char>)
    requires
        encode_utf8(a) == encode_utf8(b),
    ensures
        a == b,
{
    encode_utf8_decode_utf8(a);
    encode_utf8_decode_utf8(b);
}

/// Whether two texts are equal.
pub fn same_text(a: &str, b: &str) -> (same: bool)
    ensures
        same == (a@ == b@),
{
    let left: &[u8] = a.as_bytes();
    let right: &[u8] = b.as_bytes();
    if left.len() != right.len() {
        return false;
    }
    let mut i: usize = 0;
    while i < left.len()
        invariant
            left@ == encode_utf8(a@),
            right@ == encode_utf8(b@),
            left@.len() == right@.len(),
            i <= left@.len(),
            forall|j: int| 0 <= j < i ==> left@[j] == right@[j],
        decreases left.len() - i,
    {
        if left[i] != right[i] {
            return false;
        }
        i = i + 1;
    }
    proof {
        assert(left@ =~= right@);
        lemma_utf8_injective(a@, b@);
    }
    true
}

/// Whether two byte strings are equal.
pub fn same_bytes(a: &[u8], b: &[u8]) -> (same: bool)
    ensures
        same == (a@ == b@),
{
    if a.len() != b.len() {
        return false;
    }
    let mut i: usize = 0;
    while i < a.len()
        invariant
            a@.len() == b@.len(),
            i <= a@.len(),
            forall|j: int| 0 <= j < i ==> a@[j] == b@[j],
        decreases a.len() - i,
    {
        if a[i] != b[i] {
            return false;
        }
        i = i + 1;
    }
    assert(a@ =~= b@);
    true
}

/// Whether two optional texts are equal.
pub fn same_text_opt(a: &Option<String>, b: &Option<String>) -> (same: bool)
    ensures
        same == (text_opt(*a) == text_opt(*b)),
{
    match (a, b) {
        (Some(a), Some(b)) => same_text(a, b),
        (None, None) => true,
        _ => false,
    }
}

/// A copy of an optional text.
pub fn copy_text_opt(text: &Option<String>) -> (copy: Option<String>)
    ensures
        copy == *text,
{
    match text {
        Some(text) => Some(text.clone()),
        None => None,
    }
}

/// Whether `text` is one of `list`.
pub fn is_listed(list: &Vec<String>, text: &str) -> (listed: bool)
    ensures
        listed == texts(list@).contains(text@),
{
    let mut i: usize = 0;
    while i < list.len()
        invariant
            i <= list@.len(),
            forall|j: int| 0 <= j < i ==> list@[j]@ != text@,
        decreases list.len() - i,
    {
        if same_text(&list[i], text) {
            assert(texts(list@)[i as int] == text@);
            return true;
        }
        i = i + 1;
    }
    false
}

/// `a` followed by `b`.
pub fn joined(a: &str, b: &str) -> (text: String)
    ensures
        text@ == a@ + b@,
{
    let mut text: String = a.to_owned();
    text.append(b);
    text
}

/// The text before and the text after the first `separator`.
pub open spec fn split_once(text: Seq<char>, separator: char) -> Option<(Seq<char>, Seq<char>)>
    decreases text.len(),
{
    if text.len() == 0 {
        None
    } else if text[0] == separator {
        Some((Seq::empty(), text.skip(1)))
    } else {
        match split_once(text.skip(1), separator) {
            Some((before, after)) => Some((seq![text[0]] + before, after)),
            None => None,
        }
    }
}

/// `split_once` splits at the first separator and nowhere else.
pub proof fn lemma_split_once(text: Seq<char>, separator: char)
    ensures
        split_once(text, separator) is None <==> !text.contains(separator),
        split_once(text, separator) matches Some((before, after)) ==> {
            &&& text == before.push(separator) + after
            &&& !before.contains(separator)
        },
    decreases text.len(),
{
    if text.len() != 0 {
        let rest = text.skip(1);
        lemma_split_once(rest, separator);
        assert(text =~= seq![text[0]] + rest);
        if text[0] == separator {
            assert(text.contains(separator));
            assert(text =~= Seq::<char>::empty().push(separator) + rest);
        } else {
            if text.contains(separator) {
                let i = text.index_of(separator);
                assert(rest[i - 1] == separator);
            }
            if rest.contains(separator) {
                let i = rest.index_of(separator);
                assert(text[i + 1] == separator);
            }
            match split_once(rest, separator) {
                Some((before, after)) => {
                    let front = seq![text[0]] + before;
                    assert(text =~= front.push(separator) + after);
                    assert forall|i: int| 0 <= i < front.len() implies front[i] != separator by {
                        if i > 0 {
                            assert(front[i] == before[i - 1]);
                        }
                    }
                },
                None => {},
            }
        }
    }
}

/// The split at the first separator is determined by its two sides.
pub proof fn lemma_split_once_unique(before: Seq<char>, separator: char, after: Seq<char>)
    requires
        !before.contains(separator),
    ensures
        split_once(before.push(separator) + after, separator) == Some((before, after)),
    decreases before.len(),
{
    let text = before.push(separator) + after;
    if before.len() == 0 {
        assert(text.skip(1) =~= after);
        assert(before =~= Seq::empty());
    } else {
        assert(before[0] != separator);
        let rest = before.skip(1);
        assert forall|i: int| 0 <= i < rest.len() implies rest[i] != separator by {
            assert(rest[i] == before[i + 1]);
        }
        lemma_split_once_unique(rest, separator, after);
        assert(text.skip(1) =~= rest.push(separator) + after);
        assert(seq![text[0]] + rest =~= before);
    }
}

/// Splits `text` at the first `separator`.
pub fn split_at_first(text: &str, separator: char) -> (parts: Option<(String, String)>)
    ensures
        match parts {
            Some((before, after)) => split_once(text@, separator) == Some((before@, after@)),
            None => split_once(text@, separator) is None,
        },
{
    let chars: Vec<char> = chars_of(text);
    let mut i: usize = 0;
    while i < chars.len()
        invariant
            chars@ == text@,
            i <= chars@.len(),
            forall|j: int| 0 <= j < i ==> chars@[j] != separator,
        decreases chars.len() - i,
    {
        if chars[i] == separator {
            let before: String = string_of(&chars, 0, i);
            let after: String = string_of(&chars, i + 1, chars.len());
            proof {
                lemma_split_once_unique(before@, separator, after@);
                assert(text@ =~= before@.push(separator) + after@);
            }
            return Some((before, after));
        }
        i = i + 1;
    }
    proof {
        lemma_split_once(text@, separator);
    }
    None
}

/// The parts of `text` between separators, empty parts kept.
pub open spec fn split_all(text: Seq<char>, separator: char) -> Seq<Seq<char>>
    decreases text.len(),
{
    match split_once(text, separator) {
        Some((before, after)) => {
            proof {
                lemma_split_once(text, separator);
            }
            seq![before] + split_all(after, separator)
        },
        None => seq![text],
    }
}

/// A separator-free front part is the first part of the split.
pub proof fn lemma_split_all_front(front: Seq<char>, separator: char, rest: Seq<char>)
    requires
        !front.contains(separator),
    ensures
        split_all(front.push(separator) + rest, separator) == seq![front] + split_all(
            rest,
            separator,
        ),
{
    lemma_split_once_unique(front, separator, rest);
}

/// A text without a separator is its own only part.
pub proof fn lemma_split_all_single(text: Seq<char>, separator: char)
    requires
        !text.contains(separator),
    ensures
        split_all(text, separator) == seq![text],
{
    lemma_split_once(text, separator);
}

/// The number of characters of all parts, with one separator after each.
pub open spec fn extent(parts: Seq<Seq<char>>) -> nat
    decreases parts.len(),
{
    if parts.len() == 0 {
        0
    } else {
        parts[0].len() + 1 + extent(parts.skip(1))
    }
}

/// The parts of a split text extend just past the text.
pub proof fn lemma_split_all_extent(text: Seq<char>, separator: char)
    ensures
        extent(split_all(text, separator)) == text.len() + 1,
    decreases text.len(),
{
    lemma_split_once(text, separator);
    match split_once(text, separator) {
        Some((before, after)) => {
            lemma_split_all_extent(after, separator);
            assert(split_all(text, separator).skip(1) =~= split_all(after, separator));
        },
        None => {
            assert(split_all(text, separator).skip(1) =~= Seq::empty());
            assert(extent(Seq::<Seq<char>>::empty()) == 0);
        },
    }
}

/// Splits `text` at every `separator`.
pub fn split_at_each(text: &str, separator: char) -> (parts: Vec<String>)
    ensures
        texts(parts@) == split_all(text@, separator),
{
    let mut parts: Vec<String> = Vec::new();
    let mut rest: String = text.to_owned();
    loop
        invariant
            texts(parts@) + split_all(rest@, separator) == split_all(text@, separator),
        decreases rest@.len(),
    {
        match split_at_first(&rest, separator) {
            Some((before, after)) => {
                proof {
                    lemma_split_once(rest@, separator);
                    assert(texts(parts@.push(before)) =~= texts(parts@).push(before@));
                    assert(texts(parts@).push(before@) + split_all(after@, separator) =~= texts(
                        parts@,
                    ) + (seq![before@] + split_all(after@, separator)));
                }
                parts.push(before);
                rest = after;
            },
            None => {
                proof {
                    assert(texts(parts@.push(rest)) =~= texts(parts@) + seq![rest@]);
                }
                parts.push(rest);
                return parts;
            },
        }
    }
}

/// Whether `needle` stands in `text` at position `at`.
pub open spec fn occurs_at(text: Seq<char>, needle: Seq<char>, at: int) -> bool {
    &&& 0 <= at
    &&& at + needle.len() <= text.len()
    &&& text.subrange(at, at + needle.len()) == needle
}

/// Whether `text` holds `needle` somewhere.
pub open spec fn holds_text(text: Seq<char>, needle: Seq<char>) -> bool {
    exists|at: int| occurs_at(text, needle, at)
}

/// Whether `text` begins with `prefix`.
pub open spec fn has_prefix(text: Seq<char>, prefix: Seq<char>) -> bool {
    occurs_at(text, prefix, 0)
}

/// `text` without `prefix` at its front, or `text` itself.
pub open spec fn without_prefix(text: Seq<char>, prefix: Seq<char>) -> Seq<char> {
    if has_prefix(text, prefix) {
        text.skip(prefix.len() as int)
    } else {
        text
    }
}

/// What follows the last occurrence of `needle`.
pub open spec fn after_last(text: Seq<char>, needle: Seq<char>) -> Option<Seq<char>>
    decreases text.len(),
{
    if text.len() < needle.len() {
        None
    } else if occurs_at(text, needle, text.len() - needle.len()) {
        Some(Seq::empty())
    } else if text.len() == 0 {
        None
    } else {
        match after_last(text.drop_last(), needle) {
            Some(after) => Some(after.push(text.last())),
            None => None,
        }
    }
}

/// What follows the last occurrence follows that occurrence.
pub proof fn lemma_after_last(text: Seq<char>, needle: Seq<char>, at: int)
    requires
        -1 <= at <= text.len() - needle.len() || at == -1,
        at >= 0 ==> occurs_at(text, needle, at),
        forall|j: int| j > at ==> !occurs_at(text, needle, j),
    ensures
        at >= 0 ==> after_last(text, needle) == Some(text.skip(at + needle.len())),
        at < 0 ==> after_last(text, needle) is None,
    decreases text.len(),
{
    if text.len() >= needle.len() {
        let end = text.len() - needle.len();
        if occurs_at(text, needle, end) {
            assert(at == end);
            assert(text.skip(at + needle.len()) =~= Seq::empty());
        } else if text.len() > 0 {
            let shorter = text.drop_last();
            assert forall|j: int| j > at implies !occurs_at(shorter, needle, j) by {
                if occurs_at(shorter, needle, j) {
                    assert(text.subrange(j, j + needle.len()) =~= shorter.subrange(
                        j,
                        j + needle.len(),
                    ));
                    assert(occurs_at(text, needle, j));
                }
            }
            if at >= 0 {
                assert(at < end);
                assert(shorter.subrange(at, at + needle.len()) =~= text.subrange(
                    at,
                    at + needle.len(),
                ));
            }
            lemma_after_last(shorter, needle, at);
            if at >= 0 {
                assert(shorter.skip(at + needle.len()).push(text.last()) =~= text.skip(
                    at + needle.len(),
                ));
            }
        }
    }
}

fn occurs(text: &Vec<char>, needle: &Vec<char>, at: usize) -> (found: bool)
    requires
        at + needle@.len() <= text@.len(),
    ensures
        found == occurs_at(text@, needle@, at as int),
{
    let mut i: usize = 0;
    while i < needle.len()
        invariant
            at + needle.len() <= text.len(),
            i <= needle@.len(),
            forall|j: int| 0 <= j < i ==> text@[at + j] == needle@[j],
        decreases needle.len() - i,
    {
        if text[at + i] != needle[i] {
            proof {
                assert(text@.subrange(at as int, at + needle@.len())[i as int] != needle@[i as int]);
            }
            return false;
        }
        i = i + 1;
    }
    assert(text@.subrange(at as int, at + needle@.len()) =~= needle@);
    true
}

/// Whether `text` begins with `prefix`.
pub fn starts_with(text: &str, prefix: &str) -> (found: bool)
    ensures
        found == has_prefix(text@, prefix@),
{
    let chars: Vec<char> = chars_of(text);
    let front: Vec<char> = chars_of(prefix);
    if front.len() > chars.len() {
        return false;
    }
    occurs(&chars, &front, 0)
}

/// Removes `prefix` from the front of `text` if it is there.
pub fn strip_front(text: &str, prefix: &str) -> (rest: String)
    ensures
        rest@ == without_prefix(text@, prefix@),
{
    let chars: Vec<char> = chars_of(text);
    let front: Vec<char> = chars_of(prefix);
    if front.len() <= chars.len() && occurs(&chars, &front, 0) {
        string_of(&chars, front.len(), chars.len())
    } else {
        text.to_owned()
    }
}

/// Whether `text` holds `needle` somewhere.
pub fn contains(text: &str, needle: &str) -> (found: bool)
    ensures
        found == holds_text(text@, needle@),
{
    let chars: Vec<char> = chars_of(text);
    let wanted: Vec<char> = chars_of(needle);
    if wanted.len() > chars.len() {
        return false;
    }
    let mut at: usize = 0;
    while at <= chars.len() - wanted.len()
        invariant
            chars@ == text@,
            wanted@ == needle@,
            wanted@.len() <= chars@.len(),
            at <= chars@.len() - wanted@.len() + 1,
            forall|j: int| 0 <= j < at ==> !occurs_at(text@, needle@, j),
        decreases chars.len() - wanted.len() + 1 - at,
    {
        if occurs(&chars, &wanted, at) {
            return true;
        }
        if at == chars.len() - wanted.len() {
            return false;
        }
        at = at + 1;
    }
    false
}

/// What follows the last occurrence of `needle` in `text`.
pub fn tail_after_last(text: &str, needle: &str) -> (tail: Option<String>)
    ensures
        text_opt(tail) == after_last(text@, needle@),
{
    let chars: Vec<char> = chars_of(text);
    let wanted: Vec<char> = chars_of(needle);
    if wanted.len() > chars.len() {
        return None;
    }
    let mut at: usize = chars.len() - wanted.len();
    loop
        invariant
            chars@ == text@,
            wanted@ == needle@,
            at + wanted.len() <= chars.len(),
            forall|j: int| j > at ==> !occurs_at(text@, needle@, j),
        decreases at,
    {
        if occurs(&chars, &wanted, at) {
            proof {
                lemma_after_last(text@, needle@, at as int);
            }
            return Some(string_of(&chars, at + wanted.len(), chars.len()));
        }
        if at == 0 {
            proof {
                lemma_after_last(text@, needle@, -1);
            }
            return None;
        }
        at = at - 1;
    }
}

/// The characters with the Unicode property `White_Space`.
pub open spec fn is_space(c: char) -> bool {
    ||| 0x9 <= c as u32 <= 0xd
    ||| c as u32 == 0x20
    ||| c as u32 == 0x85
    ||| c as u32 == 0xa0
    ||| c as u32 == 0x1680
    ||| 0x2000 <= c as u32 <= 0x200a
    ||| c as u32 == 0x2028
    ||| c as u32 == 0x2029
    ||| c as u32 == 0x202f
    ||| c as u32 == 0x205f
    ||| c as u32 == 0x3000
}

fn space(c: char) -> (found: bool)
    ensures
        found == is_space(c),
{
    let code: u32 = c as u32;
    (code >= 0x9 && code <= 0xd) || code == 0x20 || code == 0x85 || code == 0xa0 || code == 0x1680
        || (code >= 0x2000 && code <= 0x200a) || code == 0x2028 || code == 0x2029 || code == 0x202f
        || code == 0x205f || code == 0x3000
}

/// `text` without white space at its front.
pub open spec fn trim_start(text: Seq<char>) -> Seq<char>
    decreases text.len(),
{
    if text.len() > 0 && is_space(text[0]) {
        trim_start(text.skip(1))
    } else {
        text
    }
}

/// `text` without white space at its end.
pub open spec fn trim_end(text: Seq<char>) -> Seq<char>
    decreases text.len(),
{
    if text.len() > 0 && is_space(text.last()) {
        trim_end(text.drop_last())
    } else {
        text
    }
}

/// `text` without white space at either end.
pub open spec fn trim(text: Seq<char>) -> Seq<char> {
    trim_end(trim_start(text))
}

/// A text that neither begins nor ends with white space is kept by `trim`.
pub proof fn lemma_trim_kept(text: Seq<char>)
    requires
        text.len() > 0 ==> !is_space(text[0]) && !is_space(text.last()),
    ensures
        trim(text) == text,
{
}

/// Removes white space at both ends.
pub fn trimmed(text: &str) -> (kept: String)
    ensures
        kept@ == trim(text@),
{
    let chars: Vec<char> = chars_of(text);
    let mut from: usize = 0;
    assert(chars@.skip(0) =~= chars@);
    while from < chars.len() && space(chars[from])
        invariant
            from <= chars@.len(),
            chars@ == text@,
            trim_start(text@) == trim_start(chars@.skip(from as int)),
        decreases chars.len() - from,
    {
        assert(chars@.skip(from as int).skip(1) =~= chars@.skip(from as int + 1));
        from = from + 1;
    }
    let ghost front = chars@.skip(from as int);
    let mut to: usize = chars.len();
    assert(front =~= chars@.subrange(from as int, to as int));
    while from < to && space(chars[to - 1])
        invariant
            from <= to <= chars@.len(),
            trim_end(front) == trim_end(chars@.subrange(from as int, to as int)),
        decreases to - from,
    {
        assert(chars@.subrange(from as int, to as int).drop_last() =~= chars@.subrange(
            from as int,
            to - 1,
        ));
        to = to - 1;
    }
    assert(trim_start(front) == front);
    string_of(&chars, from, to)
}

/// The ASCII lower-case form of one character.
pub open spec fn lower_char(c: char) -> char {
    if 'A' <= c <= 'Z' {
        (c as u32 + 32) as char
    } else {
        c
    }
}

/// The ASCII lower-case form of a text.
pub open spec fn lower(text: Seq<char>) -> Seq<char> {
    Seq::new(text.len(), |i: int| lower_char(text[i]))
}

fn lowered_char(c: char) -> (low: char)
    ensures
        low == lower_char(c),
{
    if c >= 'A' && c <= 'Z' {
        ((c as u8) + 32) as char
    } else {
        c
    }
}

/// The ASCII lower-case form of `text`.
pub fn lowered(text: &str) -> (low: String)
    ensures
        low@ == lower(text@),
{
    let chars: Vec<char> = chars_of(text);
    let mut low: String = String::new();
    let mut i: usize = 0;
    while i < chars.len()
        invariant
            chars@ == text@,
            i <= chars@.len(),
            low@ == lower(chars@.take(i as int)),
        decreases chars.len() - i,
    {
        low.push(lowered_char(chars[i]));
        i = i + 1;
        assert(low@ =~= lower(chars@.take(i as int)));
    }
    assert(chars@.take(i as int) =~= chars@);
    low
}

/// Whether two texts are equal up to ASCII case.
pub fn same_text_any_case(a: &str, b: &str) -> (same: bool)
    ensures
        same == (lower(a@) == lower(b@)),
{
    let left: String = lowered(a);
    let right: String = lowered(b);
    same_text(&left, &right)
}

/// An ASCII letter or digit.
pub open spec fn is_alphanumeric(c: char) -> bool {
    ||| '0' <= c <= '9'
    ||| 'a' <= c <= 'z'
    ||| 'A' <= c <= 'Z'
}

/// Whether every character is an ASCII letter or digit.
pub fn all_alphanumeric(text: &str) -> (all: bool)
    ensures
        all == (forall|i: int| 0 <= i < text@.len() ==> is_alphanumeric(#[trigger] text@[i])),
{
    let chars: Vec<char> = chars_of(text);
    let mut i: usize = 0;
    while i < chars.len()
        invariant
            chars@ == text@,
            i <= chars@.len(),
            forall|j: int| 0 <= j < i ==> is_alphanumeric(#[trigger] text@[j]),
        decreases chars.len() - i,
    {
        let c: char = chars[i];
        let digit: bool = c >= '0' && c <= '9';
        let small: bool = c >= 'a' && c <= 'z';
        let large: bool = c >= 'A' && c <= 'Z';
        if !(digit || small || large) {
            assert(!is_alphanumeric(text@[i as int]));
            return false;
        }
        i = i + 1;
    }
    true
}

/// The number of bytes of the UTF-8 form of `text`.
pub open spec fn byte_len(text: Seq<char>) -> nat {
    encode_utf8(text).len()
}

/// The number of bytes of `text`.
pub fn bytes_in(text: &str) -> (count: usize)
    ensures
        count == byte_len(text@),
{
    text.as_bytes().len()
}

/// The text of an optional borrowed text.
pub open spec fn str_opt(text: Option<&str>) -> Option<Seq<char>> {
    match text {
        Some(text) => Some(text@),
        None => None,
    }
}

/// The UTF-8 form of two texts in a row is the UTF-8 forms in a row.
pub proof fn lemma_utf8_concat(a: Seq<char>, b: Seq<char>)
    ensures
        encode_utf8(a + b) == encode_utf8(a) + encode_utf8(b),
    decreases a.len(),
{
    if a.len() == 0 {
        assert(a + b =~= b);
        assert(encode_utf8(a) =~= Seq::empty());
    } else {
        assert((a + b).drop_first() =~= a.drop_first() + b);
        lemma_utf8_concat(a.drop_first(), b);
        assert(encode_utf8(a + b) =~= encode_utf8(a) + encode_utf8(b));
    }
}

} // verus!
