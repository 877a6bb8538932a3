//! Character-level helpers on text.

use vstd::prelude::*;

verus! {

/// The characters of `text`, in order.
pub fn to_chars(text: &str) -> (chars: Vec<char>)
    ensures
        chars@ == text@,
{
    let mut chars: Vec<char> = Vec::new();
    for c in it: text.chars()
        invariant
            chars@ == it.seq().take(it.index()),
            it.seq() == text@,
    {
        chars.push(c);
    }
    chars
}

/// Whether `c` is one of the ten ASCII decimal digits.
pub open spec fn is_digit(c: char) -> bool {
    '0' <= c && c <= '9'
}

/// Whether every character of `digits` is an ASCII decimal digit.
pub open spec fn all_digits(digits: Seq<char>) -> bool {
    forall|i: int| 0 <= i < digits.len() ==> is_digit(#[trigger] digits[i])
}

/// The number that a run of decimal digits denotes; zero for the empty run.
pub open spec fn digits_value(digits: Seq<char>) -> nat
    decreases digits.len(),
{
    if digits.len() == 0 {
        0
    } else {
        (digits_value(digits.drop_last()) * 10 + (digits.last() as nat - '0' as nat)) as nat
    }
}

/// Whether `text` opens with a `+` or a `-`.
pub open spec fn has_sign(text: Seq<char>) -> bool {
    text.len() > 0 && (text[0] == '-' || text[0] == '+')
}

/// The `i32` that `text` denotes in decimal: an optional `+` or `-`, then one
/// or more ASCII digits and nothing else. `None` when `text` has another
/// shape or the number does not fit in an `i32`.
pub open spec fn decimal_i32(text: Seq<char>) -> Option<int> {
    let digits = if has_sign(text) { text.skip(1) } else { text };
    let magnitude = digits_value(digits) as int;
    let value = if has_sign(text) && text[0] == '-' { -magnitude } else { magnitude };
    if digits.len() > 0 && all_digits(digits) && i32::MIN <= value <= i32::MAX {
        Some(value)
    } else {
        None
    }
}

/// Reads `text` as a decimal `i32`: an optional sign, then digits only. Blanks,
/// underscores, digits outside ASCII and numbers out of range are refused.
pub fn parse_decimal_i32(text: &str) -> (parsed: Option<i32>)
    ensures
        match parsed {
            Some(value) => decimal_i32(text@) == Some(value as int),
            None => decimal_i32(text@) is None,
        },
{
    let chars = to_chars(text);
    let len = chars.len();
    if len == 0 {
        return None;
    }
    let negative = chars[0] == '-';
    let start: usize = if chars[0] == '-' || chars[0] == '+' { 1 } else { 0 };
    if start == len {
        return None;
    }
    let ghost digits = text@.skip(start as int);
    // One past the largest magnitude an `i32` can carry.
    let cap: i64 = 0x8000_0001;
    let mut magnitude: i64 = 0;
    let mut i: usize = start;
    while i < len
        invariant
            start <= i <= len,
            len == chars.len(),
            chars@ == text@,
            digits == if has_sign(text@) { text@.skip(1) } else { text@ },
            start == if has_sign(text@) { 1int } else { 0int },
            cap == 0x8000_0001,
            all_digits(digits.take(i - start)),
            0 <= magnitude <= cap,
            magnitude == if digits_value(digits.take(i - start)) <= cap {
                digits_value(digits.take(i - start)) as int
            } else {
                cap as int
            },
        decreases len - i,
    {
        let c = chars[i];
        if !('0' <= c && c <= '9') {
            return None;
        }
        let digit: i64 = (c as u32 - '0' as u32) as i64;
        assert(digits.take(i - start + 1).drop_last() == digits.take(i - start));
        let next: i64 = magnitude * 10 + digit;
        magnitude = if next < cap { next } else { cap };
        i += 1;
    }
    assert(digits.take(len - start) == digits);
    if negative {
        if magnitude <= 0x8000_0000 {
            Some((-magnitude) as i32)
        } else {
            None
        }
    } else if magnitude <= 0x7fff_ffff {
        Some(magnitude as i32)
    } else {
        None
    }
}

/// Whether `needle` stands in `text` at offset `at`.
pub open spec fn occurs_at(needle: Seq<char>, text: Seq<char>, at: int) -> bool {
    0 <= at && at + needle.len() <= text.len() && text.subrange(at, at + needle.len()) == needle
}

/// Whether `needle` stands somewhere in `text`.
pub open spec fn occurs_in(needle: Seq<char>, text: Seq<char>) -> bool {
    exists|at: int| occurs_at(needle, text, at)
}

/// What `str::to_lowercase` makes of `text`.
pub uninterp spec fn lowercase(text: Seq<char>) -> Seq<char>;

/// Calls `str::to_lowercase`, which maps each character through Unicode's
/// lower-case tables. Those tables are not restated here: the result is known
/// only as `lowercase` of the input.
#[verifier::external_body]
pub(crate) fn to_lowercase(text: &str) -> (lowered: String)
    ensures
        lowered@ == lowercase(text@),
{
    text.to_lowercase()
}

/// Whether `needle` stands in `text` at offset `at`, compared character by
/// character.
fn matches_at(text: &Vec<char>, needle: &Vec<char>, at: usize) -> (same: bool)
    requires
        at + needle.len() <= text.len(),
    ensures
        same == occurs_at(needle@, text@, at as int),
{
    let mut k: usize = 0;
    while k < needle.len()
        invariant
            k <= needle.len(),
            at + needle.len() <= text.len(),
            forall|j: int| 0 <= j < k ==> text@[at + j] == needle@[j],
        decreases needle.len() - k,
    {
        if text[at + k] != needle[k] {
            return false;
        }
        k += 1;
    }
    assert(text@.subrange(at as int, at + needle.len()) =~= needle@);
    true
}

/// Whether `text` ends with `suffix`.
pub fn ends_with(text: &str, suffix: &str) -> (ends: bool)
    ensures
        ends == suffix@.is_suffix_of(text@),
{
    let whole = to_chars(text);
    let tail = to_chars(suffix);
    if tail.len() > whole.len() {
        return false;
    }
    matches_at(&whole, &tail, whole.len() - tail.len())
}

/// Whether `needle` stands somewhere in `text`.
pub fn contains(text: &str, needle: &str) -> (found: bool)
    ensures
        found == occurs_in(needle@, text@),
{
    let whole = to_chars(text);
    let part = to_chars(needle);
    if part.len() > whole.len() {
        return false;
    }
    let last: usize = whole.len() - part.len();
    let mut at: usize = 0;
    loop
        invariant
            whole@ == text@,
            part@ == needle@,
            at <= last,
            last == whole.len() - part.len(),
            forall|k: int| 0 <= k < at ==> !occurs_at(needle@, text@, k),
        decreases last - at,
    {
        if matches_at(&whole, &part, at) {
            return true;
        }
        if at == last {
            return false;
        }
        at += 1;
    }
}

} // verus!
