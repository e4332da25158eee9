//! Extraction of the ticker symbol and of the notional amount from the
//! free-text fields of a filing. The patterns are found by the regex engine;
//! what is made of a match is decided here.

use crate::text::{chars_of, is_capital, is_digit};
use vstd::prelude::*;

verus! {

/// The pattern of a ticker embedded in markup: capital letters between `>`
/// and `<`.
pub const TICKER_PATTERN: &'static str = ">([A-Z]+)<";

/// The pattern of a filed range: two dollar figures with a thousands
/// separator, joined by ` - `.
pub const AMOUNT_PATTERN: &'static str = "\\$(\\d+,\\d+) - \\$(\\d+,\\d+)";

/// The text that capture group `group` holds in the leftmost match of the
/// regular expression `pattern` in `haystack`; none where `pattern` is no
/// regular expression, nothing matches, or the group took no part.
pub uninterp spec fn regex_capture(pattern: Seq<char>, haystack: Seq<char>, group: nat) -> Option<
    Seq<char>,
>;

/// Runs the regex engine: `regex::Regex::new` on `pattern`, then
/// `Regex::captures` on `haystack`, and hands out the text of one capture
/// group. The contract only names that result: the same pattern, haystack
/// and group always give the same answer.
#[verifier::external_body]
fn capture(pattern: &str, haystack: &str, group: usize) -> (found: Option<String>)
    ensures
        match found {
            Some(text) => regex_capture(pattern@, haystack@, group as nat) == Some(text@),
            None => regex_capture(pattern@, haystack@, group as nat) is None,
        },
{
    let compiled = regex::Regex::new(pattern).ok()?;
    let groups = compiled.captures(haystack)?;
    match groups.get(group) {
        Some(found) => Some(found.as_str().to_string()),
        None => None,
    }
}

/// A ticker symbol: one or more capital letters.
pub open spec fn is_symbol(text: Seq<char>) -> bool {
    &&& text.len() > 0
    &&& forall|i: int| 0 <= i < text.len() ==> is_capital(#[trigger] text[i])
}

/// The symbol a captured text stands for, if it is one.
pub open spec fn spec_symbol(captured: Option<Seq<char>>) -> Option<Seq<char>> {
    match captured {
        Some(text) => if is_symbol(text) {
            Some(text)
        } else {
            None
        },
        None => None,
    }
}

/// The characters of a text that may be absent.
pub open spec fn optional_text(text: Option<String>) -> Option<Seq<char>> {
    match text {
        Some(t) => Some(t@),
        None => None,
    }
}

/// Whether `text` is a ticker symbol.
pub fn check_symbol(text: &str) -> (ok: bool)
    ensures
        ok == is_symbol(text@),
{
    let chars = chars_of(text);
    if chars.len() == 0 {
        return false;
    }
    let mut i: usize = 0;
    while i < chars.len()
        invariant
            i <= chars.len(),
            chars@ == text@,
            forall|j: int| 0 <= j < i ==> is_capital(#[trigger] chars@[j]),
        decreases chars.len() - i,
    {
        let c = chars[i];
        if !('A' <= c && c <= 'Z') {
            return false;
        }
        i += 1;
    }
    true
}

/// Keeps a captured text only if it is a ticker symbol.
pub fn checked_symbol(captured: Option<String>) -> (symbol: Option<String>)
    ensures
        optional_text(symbol) == spec_symbol(optional_text(captured)),
{
    match captured {
        Some(text) => if check_symbol(text.as_str()) {
            Some(text)
        } else {
            None
        },
        None => None,
    }
}

/// The ticker that a markup fragment holds: what the ticker pattern's group
/// captures in it, if that is a symbol.
pub open spec fn spec_extract_ticker(input: Seq<char>) -> Option<Seq<char>> {
    spec_symbol(regex_capture(TICKER_PATTERN@, input, 1))
}

/// The ticker embedded in a markup fragment such as `<a href=...>AAPL</a>`:
/// the first run of capital letters that stands between `>` and `<`.
pub fn extract_ticker(input: &str) -> (ticker: Option<String>)
    ensures
        optional_text(ticker) == spec_extract_ticker(input@),
        ticker matches Some(t) ==> is_symbol(t@),
{
    checked_symbol(capture(TICKER_PATTERN, input, 1))
}

/// `text` without its thousands separators.
pub open spec fn without_separators(text: Seq<char>) -> Seq<char> {
    text.filter(|c: char| c != ',')
}

/// Every character of `text` is a digit.
pub open spec fn all_digits(text: Seq<char>) -> bool {
    forall|i: int| 0 <= i < text.len() ==> is_digit(#[trigger] text[i])
}

/// The number that a row of digits spells in base ten.
pub open spec fn decimal_value(digits: Seq<char>) -> int
    decreases digits.len(),
{
    if digits.len() == 0 {
        0
    } else {
        10 * decimal_value(digits.drop_last()) + (digits.last() as int - '0' as int)
    }
}

/// The value of one bound of a filed range: its digits read in base ten,
/// thousands separators passed over. There is none where the text holds
/// anything else, holds no digit, or spells a number beyond `i64`.
pub open spec fn spec_bound(text: Seq<char>) -> Option<int> {
    let digits = without_separators(text);
    if digits.len() > 0 && all_digits(digits) && decimal_value(digits) <= i64::MAX {
        Some(decimal_value(digits))
    } else {
        None
    }
}

/// The midpoint of two bounds, rounded down.
pub open spec fn spec_midpoint(low: Option<int>, high: Option<int>) -> Option<int> {
    match (low, high) {
        (Some(l), Some(h)) => Some((l + h) / 2),
        _ => None,
    }
}

/// The notional amount that two captured bounds stand for.
pub open spec fn spec_amount(low: Option<Seq<char>>, high: Option<Seq<char>>) -> Option<int> {
    match (low, high) {
        (Some(l), Some(h)) => spec_midpoint(spec_bound(l), spec_bound(h)),
        _ => None,
    }
}

/// An amount that may be absent, as a mathematical value.
pub open spec fn optional_amount(amount: Option<i64>) -> Option<int> {
    match amount {
        Some(a) => Some(a as int),
        None => None,
    }
}

proof fn lemma_strip_step(text: Seq<char>, i: int)
    requires
        0 <= i < text.len(),
    ensures
        without_separators(text.take(i + 1)) == if text[i] != ',' {
            without_separators(text.take(i)).push(text[i])
        } else {
            without_separators(text.take(i))
        },
{
    reveal(Seq::filter);
    assert(text.take(i + 1).drop_last() == text.take(i));
    assert(text.take(i + 1).last() == text[i]);
}

proof fn lemma_decimal_prefix(digits: Seq<char>, k: int)
    requires
        all_digits(digits),
        0 <= k <= digits.len(),
    ensures
        0 <= decimal_value(digits.take(k)) <= decimal_value(digits),
    decreases digits.len(),
{
    if digits.len() == 0 {
        assert(digits.take(k) == digits);
    } else {
        let rest = digits.drop_last();
        assert(all_digits(rest)) by {
            assert forall|i: int| 0 <= i < rest.len() implies is_digit(#[trigger] rest[i]) by {
                assert(rest[i] == digits[i]);
            }
        }
        assert(is_digit(digits[digits.len() - 1]));
        if k == digits.len() {
            assert(digits.take(k) == digits);
            lemma_decimal_prefix(rest, 0);
            assert(rest.take(0).len() == 0);
        } else {
            assert(digits.take(k) == rest.take(k));
            lemma_decimal_prefix(rest, k);
        }
    }
}

/// Reads one bound of a filed range.
pub fn parse_bound(text: &str) -> (value: Option<i64>)
    ensures
        optional_amount(value) == spec_bound(text@),
        value matches Some(v) ==> v >= 0,
{
    let chars = chars_of(text);
    let mut digits: Vec<char> = Vec::new();
    let mut i: usize = 0;
    proof {
        reveal(Seq::filter);
        assert(text@.take(0).len() == 0);
    }
    while i < chars.len()
        invariant
            i <= chars.len(),
            chars@ == text@,
            digits@ == without_separators(text@.take(i as int)),
        decreases chars.len() - i,
    {
        proof {
            lemma_strip_step(text@, i as int);
        }
        if chars[i] != ',' {
            digits.push(chars[i]);
        }
        i += 1;
    }
    assert(text@.take(chars.len() as int) == text@);
    if digits.len() == 0 {
        return None;
    }
    let mut k: usize = 0;
    let mut total: i64 = 0;
    assert(digits@.take(0).len() == 0);
    while k < digits.len()
        invariant
            k <= digits.len(),
            digits@ == without_separators(text@),
            digits@.len() > 0,
            forall|j: int| 0 <= j < k ==> is_digit(#[trigger] digits@[j]),
            0 <= total,
            total == decimal_value(digits@.take(k as int)),
        decreases digits.len() - k,
    {
        let c = digits[k];
        if !('0' <= c && c <= '9') {
            return None;
        }
        proof {
            assert(digits@.take(k + 1).drop_last() == digits@.take(k as int));
            assert(digits@.take(k + 1).last() == c);
        }
        let digit: u32 = c as u32 - '0' as u32;
        let next: i128 = total as i128 * 10 + digit as i128;
        if next > i64::MAX as i128 {
            proof {
                if all_digits(digits@) {
                    lemma_decimal_prefix(digits@, k + 1);
                }
            }
            return None;
        }
        total = next as i64;
        k += 1;
    }
    assert(digits@.take(digits.len() as int) == digits@);
    Some(total)
}

/// The notional amount of a filed range, given the texts of its two bounds:
/// their average, rounded down.
pub fn amount_from_bounds(low: &str, high: &str) -> (amount: Option<i64>)
    ensures
        optional_amount(amount) == spec_midpoint(spec_bound(low@), spec_bound(high@)),
        amount matches Some(a) ==> a >= 0,
{
    let l = match parse_bound(low) {
        Some(l) => l,
        None => {
            return None;
        },
    };
    let h = match parse_bound(high) {
        Some(h) => h,
        None => {
            return None;
        },
    };
    Some(((l as i128 + h as i128) / 2) as i64)
}

/// The notional amount that an amount field holds: what the two groups of
/// the amount pattern capture in it, read as bounds and averaged.
pub open spec fn spec_extract_amount(input: Seq<char>) -> Option<int> {
    spec_amount(
        regex_capture(AMOUNT_PATTERN@, input, 1),
        regex_capture(AMOUNT_PATTERN@, input, 2),
    )
}

/// The notional amount of a filing whose amount field holds a range such as
/// `$1,001 - $15,000`: the average of the two bounds, rounded down.
pub fn extract_amount(input: &str) -> (amount: Option<i64>)
    ensures
        optional_amount(amount) == spec_extract_amount(input@),
        amount matches Some(a) ==> a >= 0,
{
    let low = match capture(AMOUNT_PATTERN, input, 1) {
        Some(low) => low,
        None => {
            return None;
        },
    };
    let high = match capture(AMOUNT_PATTERN, input, 2) {
        Some(high) => high,
        None => {
            return None;
        },
    };
    amount_from_bounds(low.as_str(), high.as_str())
}

} // verus!
