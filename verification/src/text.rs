//! Character-level text primitives.
//!
//! Event messages are free text. Everything the trackers recognise in them is
//! phrased over the message's characters, a `Seq<char>`, and computed on a
//! decoded `&[char]`.

use vstd::prelude::*;

verus! {

broadcast use vstd::string::group_string_axioms;

/// `pat` occurs in `text` starting at index `at`.
pub open spec fn occurs_at(text: Seq<char>, pat: Seq<char>, at: int) -> bool {
    &&& 0 <= at
    &&& at + pat.len() <= text.len()
    &&& text.subrange(at, at + pat.len()) == pat
}

/// `pat` occurs somewhere in `text`.
pub open spec fn contains_text(text: Seq<char>, pat: Seq<char>) -> bool {
    exists|at: int| occurs_at(text, pat, at)
}

/// `at` is the leftmost place where `pat` occurs in `text`.
pub open spec fn is_first_occurrence(text: Seq<char>, pat: Seq<char>, at: int) -> bool {
    &&& occurs_at(text, pat, at)
    &&& forall|j: int| 0 <= j < at ==> !occurs_at(text, pat, j)
}

/// The leftmost place where `pat` occurs in `text`, if it occurs at all.
pub open spec fn first_occurrence(text: Seq<char>, pat: Seq<char>) -> Option<int> {
    if contains_text(text, pat) {
        Some(choose|at: int| is_first_occurrence(text, pat, at))
    } else {
        None
    }
}

/// `at` is the leftmost index of `text` that holds the character `c`.
pub open spec fn is_first_index_of(text: Seq<char>, c: char, at: int) -> bool {
    &&& 0 <= at < text.len()
    &&& text[at] == c
    &&& forall|j: int| 0 <= j < at ==> text[j] != c
}

/// The leftmost index of `text` that holds the character `c`, if any does.
pub open spec fn first_index_of(text: Seq<char>, c: char) -> Option<int> {
    if text.contains(c) {
        Some(choose|at: int| is_first_index_of(text, c, at))
    } else {
        None
    }
}

/// The characters with the Unicode `White_Space` property.
pub open spec fn is_white_space(c: char) -> bool {
    ||| '\u{9}' <= c <= '\u{D}'
    ||| c == ' '
    ||| c == '\u{85}'
    ||| c == '\u{A0}'
    ||| c == '\u{1680}'
    ||| '\u{2000}' <= c <= '\u{200A}'
    ||| c == '\u{2028}'
    ||| c == '\u{2029}'
    ||| c == '\u{202F}'
    ||| c == '\u{205F}'
    ||| c == '\u{3000}'
}

/// `at` is the leftmost index of `text` that holds a whitespace character.
pub open spec fn is_first_white_space(text: Seq<char>, at: int) -> bool {
    &&& 0 <= at < text.len()
    &&& is_white_space(text[at])
    &&& forall|j: int| 0 <= j < at ==> !is_white_space(#[trigger] text[j])
}

/// The leftmost index of `text` that holds a whitespace character, if any does.
pub open spec fn first_white_space(text: Seq<char>) -> Option<int> {
    if exists|at: int| 0 <= at < text.len() && is_white_space(#[trigger] text[at]) {
        Some(choose|at: int| is_first_white_space(text, at))
    } else {
        None
    }
}

/// `c` is one of the ten ASCII decimal digits.
pub open spec fn is_digit(c: char) -> bool {
    '0' <= c <= '9'
}

/// The number a decimal digit stands for; zero for any other character.
pub open spec fn digit_value(c: char) -> nat {
    if is_digit(c) {
        (c as int - '0' as int) as nat
    } else {
        0
    }
}

/// The number that a run of decimal digits denotes, most significant digit first.
pub open spec fn decimal_value(digits: Seq<char>) -> nat
    decreases digits.len(),
{
    if digits.len() == 0 {
        0
    } else {
        10 * decimal_value(digits.drop_last()) + digit_value(digits.last())
    }
}

/// Every character of `text` is a decimal digit.
pub open spec fn all_digits(text: Seq<char>) -> bool {
    forall|i: int| 0 <= i < text.len() ==> is_digit(#[trigger] text[i])
}

/// `text` without one leading plus sign, if it has one.
pub open spec fn without_plus_sign(text: Seq<char>) -> Seq<char> {
    if text.len() > 0 && text[0] == '+' {
        text.skip(1)
    } else {
        text
    }
}

/// The unsigned 64-bit number that `text` spells out in decimal.
///
/// A number is an optional `+` followed by one or more ASCII digits whose value
/// fits in 64 bits. Anything else, the empty text included, spells no number.
pub open spec fn parse_u64(text: Seq<char>) -> Option<u64> {
    let digits = without_plus_sign(text);
    if digits.len() > 0 && all_digits(digits) && decimal_value(digits) <= u64::MAX {
        Some(decimal_value(digits) as u64)
    } else {
        None
    }
}

/// An index found by one of the searches below, as the `int` the specifications use.
pub open spec fn as_position(found: Option<usize>) -> Option<int> {
    match found {
        Some(at) => Some(at as int),
        None => None,
    }
}

/// A prefix of a run of digits never denotes more than the whole run.
pub proof fn lemma_decimal_value_prefix(digits: Seq<char>, n: int)
    requires
        0 <= n <= digits.len(),
    ensures
        decimal_value(digits.take(n)) <= decimal_value(digits),
    decreases digits.len(),
{
    if n == digits.len() {
        assert(digits.take(n) =~= digits);
    } else {
        lemma_decimal_value_prefix(digits.drop_last(), n);
        assert(digits.drop_last().take(n) =~= digits.take(n));
    }
}

/// The leftmost occurrence is unique, so naming one names `first_occurrence`.
pub proof fn lemma_first_occurrence(text: Seq<char>, pat: Seq<char>, at: int)
    requires
        is_first_occurrence(text, pat, at),
    ensures
        first_occurrence(text, pat) == Some(at),
{
    let chosen = choose|k: int| is_first_occurrence(text, pat, k);
    assert(is_first_occurrence(text, pat, chosen));
    assert(chosen == at) by {
        if chosen < at {
            assert(!occurs_at(text, pat, chosen));
        } else if at < chosen {
            assert(!occurs_at(text, pat, at));
        }
    }
}

/// The leftmost index of a character is unique, so naming one names `first_index_of`.
pub proof fn lemma_first_index_of(text: Seq<char>, c: char, at: int)
    requires
        is_first_index_of(text, c, at),
    ensures
        first_index_of(text, c) == Some(at),
{
    assert(text.contains(c));
    let chosen = choose|k: int| is_first_index_of(text, c, k);
    assert(is_first_index_of(text, c, chosen));
    assert(chosen == at) by {
        if chosen < at {
            assert(text[chosen] != c);
        } else if at < chosen {
            assert(text[at] != c);
        }
    }
}

/// The leftmost whitespace is unique, so naming one names `first_white_space`.
pub proof fn lemma_first_white_space(text: Seq<char>, at: int)
    requires
        is_first_white_space(text, at),
    ensures
        first_white_space(text) == Some(at),
{
    let chosen = choose|k: int| is_first_white_space(text, k);
    assert(is_first_white_space(text, chosen));
    assert(chosen == at) by {
        if chosen < at {
            assert(!is_white_space(text[chosen]));
        } else if at < chosen {
            assert(!is_white_space(text[at]));
        }
    }
}

/// Decodes a string slice into its characters.
pub fn to_chars(s: &str) -> (out: Vec<char>)
    ensures
        out@ == s@,
{
    let mut out: Vec<char> = Vec::new();
    let chars = s.chars();
    for c in it: chars
        invariant
            it.seq() == s@,
            out@ == s@.take(it.index() as int),
    {
        out.push(c);
    }
    out
}

/// Tells whether `c` has the Unicode `White_Space` property.
pub fn is_whitespace(c: char) -> (r: bool)
    ensures
        r == is_white_space(c),
{
    ('\u{9}' <= c && c <= '\u{D}') || c == ' ' || c == '\u{85}' || c == '\u{A0}' || c
        == '\u{1680}' || ('\u{2000}' <= c && c <= '\u{200A}') || c == '\u{2028}' || c
        == '\u{2029}' || c == '\u{202F}' || c == '\u{205F}' || c == '\u{3000}'
}

/// Tells whether `pat` occurs in `text` starting at index `at`.
pub fn matches_at(text: &[char], pat: &[char], at: usize) -> (r: bool)
    ensures
        r == occurs_at(text@, pat@, at as int),
{
    if pat.len() > text.len() || at > text.len() - pat.len() {
        return false;
    }
    let mut k: usize = 0;
    while k < pat.len()
        invariant
            k <= pat.len(),
            at + pat.len() <= text.len(),
            forall|j: int| 0 <= j < k ==> text@[at + j] == pat@[j],
        decreases pat.len() - k,
    {
        if text[at + k] != pat[k] {
            assert(text@.subrange(at as int, at + pat.len())[k as int] != pat@[k as int]);
            return false;
        }
        k += 1;
    }
    assert(text@.subrange(at as int, at + pat.len()) =~= pat@);
    true
}

/// Finds the leftmost place where `pat` occurs in `text`.
pub fn find_text(text: &[char], pat: &[char]) -> (found: Option<usize>)
    ensures
        as_position(found) == first_occurrence(text@, pat@),
        found is Some <==> contains_text(text@, pat@),
        found matches Some(at) ==> is_first_occurrence(text@, pat@, at as int),
{
    if pat.len() > text.len() {
        return None;
    }
    let last: usize = text.len() - pat.len();
    let mut at: usize = 0;
    while at <= last
        invariant
            last == text.len() - pat.len(),
            at <= last + 1,
            forall|j: int| 0 <= j < at ==> !occurs_at(text@, pat@, j),
        decreases last + 1 - at,
    {
        if matches_at(text, pat, at) {
            proof {
                lemma_first_occurrence(text@, pat@, at as int);
            }
            return Some(at);
        }
        assert(pat@.len() > 0) by {
            if pat@.len() == 0 {
                assert(text@.subrange(at as int, at as int) =~= pat@);
            }
        }
        at += 1;
    }
    None
}

/// Tells whether `pat` occurs somewhere in `text`.
pub fn contains(text: &[char], pat: &[char]) -> (r: bool)
    ensures
        r == contains_text(text@, pat@),
{
    find_text(text, pat).is_some()
}

/// Finds the leftmost index of `text` that holds the character `c`.
pub fn find_char(text: &[char], c: char) -> (found: Option<usize>)
    ensures
        as_position(found) == first_index_of(text@, c),
        found is Some <==> text@.contains(c),
        found matches Some(at) ==> is_first_index_of(text@, c, at as int),
{
    assert(text@.skip(0) =~= text@);
    find_char_from(text, c, 0)
}

/// Finds the leftmost index of `text`, at or after index `from`, that holds
/// the character `c`.
///
/// The index returned counts from `from`, not from the start of `text`.
pub fn find_char_from(text: &[char], c: char, from: usize) -> (found: Option<usize>)
    requires
        from <= text@.len(),
    ensures
        as_position(found) == first_index_of(text@.skip(from as int), c),
        found is Some <==> text@.skip(from as int).contains(c),
        found matches Some(at) ==> is_first_index_of(text@.skip(from as int), c, at as int),
{
    let ghost rest = text@.skip(from as int);
    let mut at: usize = from;
    while at < text.len()
        invariant
            from <= at <= text.len(),
            rest == text@.skip(from as int),
            forall|j: int| 0 <= j < at - from ==> rest[j] != c,
        decreases text.len() - at,
    {
        if text[at] == c {
            proof {
                assert(rest[at - from] == text@[at as int]);
                lemma_first_index_of(rest, c, at - from);
            }
            return Some(at - from);
        }
        at += 1;
    }
    None
}

/// Finds the leftmost whitespace character of `text` at or after index `from`.
///
/// The index returned counts from `from`, not from the start of `text`.
pub fn find_whitespace(text: &[char], from: usize) -> (found: Option<usize>)
    requires
        from <= text@.len(),
    ensures
        as_position(found) == first_white_space(text@.skip(from as int)),
        found matches Some(at) ==> is_first_white_space(text@.skip(from as int), at as int),
        found is None ==> forall|j: int|
            from <= j < text@.len() ==> !is_white_space(#[trigger] text@[j]),
{
    let ghost rest = text@.skip(from as int);
    let mut at: usize = from;
    while at < text.len()
        invariant
            from <= at <= text.len(),
            rest == text@.skip(from as int),
            forall|j: int| 0 <= j < at - from ==> !is_white_space(#[trigger] rest[j]),
        decreases text.len() - at,
    {
        if is_whitespace(text[at]) {
            proof {
                assert(rest[at - from] == text@[at as int]);
                lemma_first_white_space(rest, at - from);
            }
            return Some(at - from);
        }
        at += 1;
    }
    assert forall|j: int| from <= j < text@.len() implies !is_white_space(#[trigger] text@[j]) by {
        assert(rest[j - from] == text@[j]);
    }
    None
}

/// Reads the characters of `text` from `start` up to `end` as an unsigned
/// 64-bit decimal number.
pub fn parse_decimal(text: &[char], start: usize, end: usize) -> (parsed: Option<u64>)
    requires
        start <= end <= text@.len(),
    ensures
        parsed == parse_u64(text@.subrange(start as int, end as int)),
{
    let ghost whole = text@.subrange(start as int, end as int);
    let first: usize = if start < end && text[start] == '+' {
        start + 1
    } else {
        start
    };
    let ghost digits = without_plus_sign(whole);
    assert(digits =~= text@.subrange(first as int, end as int));
    if first == end {
        return None;
    }
    let mut value: u64 = 0;
    let mut at: usize = first;
    while at < end
        invariant
            first <= at <= end <= text@.len(),
            digits == text@.subrange(first as int, end as int),
            digits == without_plus_sign(text@.subrange(start as int, end as int)),
            all_digits(digits.take(at - first)),
            value == decimal_value(digits.take(at - first)),
        decreases end - at,
    {
        let c = text[at];
        assert(digits[at - first] == c);
        if !('0' <= c && c <= '9') {
            return None;
        }
        let digit: u64 = (c as u32 - '0' as u32) as u64;
        proof {
            assert(digits.take(at - first + 1).drop_last() =~= digits.take(at - first));
            assert(digits.take(at - first + 1).last() == c);
            assert(decimal_value(digits.take(at - first + 1)) == 10 * value + digit);
            lemma_decimal_value_prefix(digits, at - first + 1);
        }
        if value > (u64::MAX - digit) / 10 {
            return None;
        }
        value = value * 10 + digit;
        at += 1;
    }
    assert(digits.take(end - first) =~= digits);
    Some(value)
}

} // verus!
