//! Decimal numbers as they stand in an attribute's value.

use vstd::prelude::*;
use crate::text::chars_of;

verus! {

/// `c` is one of the ten ASCII digits.
pub open spec fn is_digit(c: char) -> bool {
    '0' <= c <= '9'
}

/// The value of the digit `c`.
pub open spec fn digit_value(c: char) -> nat
    recommends
        is_digit(c),
{
    (c as u32 - '0' as u32) as nat
}

/// Every character of `text` is a digit.
pub open spec fn all_digits(text: Seq<char>) -> bool {
    forall|i: int| 0 <= i < text.len() ==> is_digit(#[trigger] text[i])
}

/// The number that a run of digits writes in base ten.
pub open spec fn decimal(digits: Seq<char>) -> nat
    recommends
        all_digits(digits),
    decreases digits.len(),
{
    if digits.len() == 0 {
        0
    } else {
        10 * decimal(digits.drop_last()) + digit_value(digits.last())
    }
}

/// `text` without the one `+` that may lead it.
pub open spec fn unsigned_part(text: Seq<char>) -> Seq<char> {
    if text.len() > 0 && text[0] == '+' {
        text.drop_first()
    } else {
        text
    }
}

/// The `u32` that `text` writes: an optional `+`, then one or more digits and
/// nothing else, of a value that a `u32` holds. Any other text writes none.
pub open spec fn parsed_u32(text: Seq<char>) -> Option<u32> {
    let digits = unsigned_part(text);
    if digits.len() > 0 && all_digits(digits) && decimal(digits) <= u32::MAX {
        Some(decimal(digits) as u32)
    } else {
        None
    }
}

/// A run of digits writes no less than any of its prefixes.
pub proof fn lemma_decimal_grows(digits: Seq<char>, k: int)
    requires
        all_digits(digits),
        0 <= k <= digits.len(),
    ensures
        decimal(digits.take(k)) <= decimal(digits),
    decreases digits.len(),
{
    if k == digits.len() {
        assert(digits.take(k) =~= digits);
    } else {
        let shorter = digits.drop_last();
        assert(shorter.take(k) =~= digits.take(k));
        lemma_decimal_grows(shorter, k);
    }
}

/// Reads a `u32` from characters.
pub fn u32_in(text: &[char]) -> (value: Option<u32>)
    ensures
        value == parsed_u32(text@),
{
    let len: usize = text.len();
    let first: usize = if len > 0 && text[0] == '+' { 1 } else { 0 };
    let ghost digits = unsigned_part(text@);
    assert(digits =~= text@.skip(first as int));
    if first == len {
        return None;
    }
    let mut value: u64 = 0;
    let mut k: usize = first;
    while k < len
        invariant
            first <= k <= len == text@.len(),
            digits == unsigned_part(text@),
            digits == text@.skip(first as int),
            all_digits(digits.take(k - first)),
            value == decimal(digits.take(k - first)),
            value <= u32::MAX,
        decreases len - k,
    {
        let c: char = text[k];
        let ghost seen = digits.take(k - first);
        let ghost next = digits.take(k + 1 - first);
        assert(next.drop_last() =~= seen);
        assert(next.last() == c);
        if c < '0' || c > '9' {
            assert(!is_digit(digits[k - first]));
            return None;
        }
        let d: u64 = (c as u32 - '0' as u32) as u64;
        value = 10 * value + d;
        if value > 0xffff_ffff {
            proof {
                if all_digits(digits) {
                    lemma_decimal_grows(digits, k + 1 - first);
                }
            }
            return None;
        }
        k += 1;
    }
    assert(digits.take(k - first) =~= digits);
    Some(value as u32)
}

/// Reads a `u32` from `text`: an optional `+`, then decimal digits only.
/// Anything else, or a value too large for a `u32`, gives `None`.
pub fn parse_u32(text: &str) -> (value: Option<u32>)
    ensures
        value == parsed_u32(text@),
{
    let chars = chars_of(text);
    u32_in(chars.as_slice())
}

/// A text that holds anything but digits after the `+` that may lead it
/// writes no number.
pub proof fn lemma_non_digit_unparsed(text: Seq<char>, at: int)
    requires
        0 <= at < unsigned_part(text).len(),
        !is_digit(unsigned_part(text)[at]),
    ensures
        parsed_u32(text) is None,
{
}

} // verus!
