//! Decimal text of block numbers: writing an integer out and reading one in.
//! Both go through the standard library; the contracts here state what its
//! documentation says of them and are taken on trust.

use vstd::prelude::*;

verus! {

/// The character of a decimal digit.
pub open spec fn digit_char(digit: nat) -> char
    recommends
        digit < 10,
{
    if digit == 0 {
        '0'
    } else if digit == 1 {
        '1'
    } else if digit == 2 {
        '2'
    } else if digit == 3 {
        '3'
    } else if digit == 4 {
        '4'
    } else if digit == 5 {
        '5'
    } else if digit == 6 {
        '6'
    } else if digit == 7 {
        '7'
    } else if digit == 8 {
        '8'
    } else {
        '9'
    }
}

/// The decimal digits of a natural number, most significant first, without
/// leading zeros.
pub open spec fn decimal_digits(n: nat) -> Seq<char>
    decreases n,
{
    if n < 10 {
        seq![digit_char(n)]
    } else {
        decimal_digits(n / 10).push(digit_char(n % 10))
    }
}

/// The decimal text of an integer: its digits, after a minus sign where it
/// is negative.
pub open spec fn decimal_text(n: int) -> Seq<char> {
    if n < 0 {
        seq!['-'] + decimal_digits((-n) as nat)
    } else {
        decimal_digits(n as nat)
    }
}

/// Whether a character is one of the ten decimal digits.
pub open spec fn is_digit(c: char) -> bool {
    '0' <= c && c <= '9'
}

/// The value of a run of decimal digits.
pub open spec fn digits_value(digits: Seq<char>) -> nat
    decreases digits.len(),
{
    if digits.len() == 0 {
        0
    } else {
        (digits_value(digits.drop_last()) * 10 + (digits.last() as nat - '0' as nat)) as nat
    }
}

/// The integer that a text stands for: an optional sign, then one or more
/// decimal digits and nothing else, with a value that a signed 64-bit
/// integer can hold. Any other text stands for none.
pub open spec fn parsed_integer(text: Seq<char>) -> Option<int> {
    let signed = text.len() > 0 && (text[0] == '-' || text[0] == '+');
    let digits = if signed {
        text.skip(1)
    } else {
        text
    };
    let magnitude = digits_value(digits) as int;
    let value = if signed && text[0] == '-' {
        -magnitude
    } else {
        magnitude
    };
    if digits.len() > 0 && (forall|i: int| 0 <= i < digits.len() ==> is_digit(#[trigger] digits[i]))
        && i64::MIN <= value <= i64::MAX {
        Some(value)
    } else {
        None
    }
}

/// `i64::to_string`, that is `Display` for `i64`: the decimal digits of the
/// number, after a minus sign where it is negative.
#[verifier::external_body]
pub(crate) fn integer_to_string(n: i64) -> (text: String)
    ensures
        text@ == decimal_text(n as int),
{
    n.to_string()
}

/// `core::num::ParseIntError`, why a text is not an integer.
#[verifier::external_type_specification]
#[verifier::external_body]
pub struct ExParseIntError(core::num::ParseIntError);

/// `str::parse::<i64>`: succeeds on an optional sign followed by decimal
/// digits only whose value fits, and fails on every other text.
#[verifier::external_body]
pub(crate) fn string_to_integer(text: &str) -> (parsed: Result<i64, core::num::ParseIntError>)
    ensures
        parsed is Ok <==> parsed_integer(text@) is Some,
        parsed matches Ok(value) ==> parsed_integer(text@) == Some(value as int),
{
    text.parse::<i64>()
}

} // verus!
