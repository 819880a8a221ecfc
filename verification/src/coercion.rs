//! How the texts of the numeric fields become numbers when a configuration is
//! written: a text that is no number counts as zero.

use vstd::prelude::*;

verus! {

/// Whether `c` is one of the ten ASCII digits.
pub open spec fn is_decimal_digit(c: char) -> bool {
    '0' <= c && c <= '9'
}

/// The number that a digit stands for.
pub open spec fn digit_value(c: char) -> int {
    c as int - '0' as int
}

/// The number that a run of digits writes in base ten; the empty run writes 0.
pub open spec fn digits_value(digits: Seq<char>) -> int
    decreases digits.len(),
{
    if digits.len() == 0 {
        0
    } else {
        digits_value(digits.drop_last()) * 10 + digit_value(digits.last())
    }
}

/// Whether `text` begins with a plus or a minus sign.
pub open spec fn has_sign(text: Seq<char>) -> bool {
    text.len() > 0 && (text[0] == '+' || text[0] == '-')
}

/// What is left of `text` behind its sign, if it has one.
pub open spec fn unsigned_part(text: Seq<char>) -> Seq<char> {
    if has_sign(text) {
        text.subrange(1, text.len() as int)
    } else {
        text
    }
}

/// The integer that `text` writes, before any bound is applied: the value of
/// its digits, negated behind a minus sign.
pub open spec fn signed_value(text: Seq<char>) -> int {
    if has_sign(text) && text[0] == '-' {
        -digits_value(unsigned_part(text))
    } else {
        digits_value(unsigned_part(text))
    }
}

/// Whether `text` is an optional sign followed by one or more ASCII digits and
/// nothing else.
pub open spec fn is_decimal_integer(text: Seq<char>) -> bool {
    unsigned_part(text).len() > 0 && forall|i: int|
        0 <= i < unsigned_part(text).len() ==> is_decimal_digit(#[trigger] unsigned_part(text)[i])
}

/// The signed 32-bit integer that `text` writes in base ten, if it writes one:
/// an optional `+` or `-`, then only digits, with a value that fits.
pub open spec fn decimal_i32(text: Seq<char>) -> Option<i32> {
    if is_decimal_integer(text) && i32::MIN <= signed_value(text) <= i32::MAX {
        Some(signed_value(text) as i32)
    } else {
        None
    }
}

/// The count that a count text stands for: the integer it writes, or 0.
pub open spec fn count_or_zero(text: Seq<char>) -> i32 {
    match decimal_i32(text) {
        Some(count) => count,
        None => 0i32,
    }
}

/// The JSON number `0.0`, which stands in for a threshold text that is no
/// number.
pub open spec fn zero_threshold() -> Seq<char> {
    seq!['0', '.', '0']
}

/// The threshold that a reading stands for: the number that was read, or
/// `0.0` where the text was no number.
pub open spec fn threshold_or_zero(reading: Option<Seq<char>>) -> Seq<char> {
    match reading {
        Some(number) => number,
        None => zero_threshold(),
    }
}

/// What was read in one threshold text, as a text.
pub open spec fn reading_view(reading: Option<String>) -> Option<Seq<char>> {
    match reading {
        Some(number) => Some(number@),
        None => None,
    }
}

/// Calls `str::parse::<i32>`.
///
/// The standard library reads an optional `+` or `-` sign followed by decimal
/// digits only; the empty text, a lone sign, any other character (white space
/// and underscores too) and a value outside the range of `i32` are errors.
/// The contract says exactly that, with every error mapped to `None`.
#[verifier::external_body]
fn parse_i32(text: &str) -> (parsed: Option<i32>)
    ensures
        parsed == decimal_i32(text@),
{
    match text.parse::<i32>() {
        Ok(value) => Some(value),
        Err(_) => None,
    }
}

/// Reads a count text as a signed 32-bit integer; a text that is no such
/// integer gives 0.
pub fn coerce_count(text: &str) -> (count: i32)
    ensures
        count == count_or_zero(text@),
{
    match parse_i32(text) {
        Some(count) => count,
        None => 0,
    }
}

/// Settles the threshold of a row from what the floating-point side read in
/// its threshold text: the JSON number of the value it parsed, or `None` where
/// the text was no finite number, in whose place `0.0` is written.
pub fn coerce_threshold(reading: &Option<String>) -> (threshold: String)
    ensures
        threshold@ == threshold_or_zero(reading_view(*reading)),
{
    match reading {
        Some(number) => number.clone(),
        None => {
            proof {
                reveal_strlit("0.0");
            }
            let zero = String::from_str("0.0");
            assert(zero@ =~= zero_threshold());
            zero
        },
    }
}

} // verus!
