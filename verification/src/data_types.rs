//! Data types: a number read from text, a tuple of mixed types, and an
//! array read by position.

use std::num::ParseIntError;
use vstd::prelude::*;

verus! {

/// The one way a demonstration can fail: its text is not an unsigned
/// decimal number that fits 32 bits.
#[derive(Debug, Clone, Copy, PartialEq, Eq, Structural)]
pub struct ParseFailure;

/// `std::num::ParseIntError`, carried from the standard library's parser
/// to the place where it is turned into a [`ParseFailure`]. Nothing is
/// claimed about what it holds.
#[verifier::external_type_specification]
#[verifier::external_body]
pub struct ExParseIntError(ParseIntError);

/// Whether `c` is one of the ten decimal digits `0` to `9`.
pub open spec fn is_decimal_digit(c: char) -> bool {
    '0' <= c <= '9'
}

/// The number from zero to nine that the decimal digit `c` stands for.
pub open spec fn digit_value(c: char) -> int {
    c as int - '0' as int
}

/// What is left of `text` once one leading plus sign, if there is one, has
/// been taken off.
pub open spec fn without_plus(text: Seq<char>) -> Seq<char> {
    if text.len() > 0 && text[0] == '+' {
        text.skip(1)
    } else {
        text
    }
}

/// Whether `text` is written as an unsigned decimal number: an optional
/// plus sign, then at least one digit, and nothing else.
pub open spec fn is_unsigned_decimal(text: Seq<char>) -> bool {
    let digits = without_plus(text);
    &&& digits.len() > 0
    &&& forall|i: int| 0 <= i < digits.len() ==> is_decimal_digit(#[trigger] digits[i])
}

/// The number that a run of decimal digits denotes, most significant digit
/// first. The empty run denotes zero.
pub open spec fn decimal_value(digits: Seq<char>) -> int
    decreases digits.len(),
{
    if digits.len() == 0 {
        0
    } else {
        10 * decimal_value(digits.drop_last()) + digit_value(digits.last())
    }
}

/// Whether `text` denotes an unsigned number of 32 bits: it is written as
/// an unsigned decimal number, and that number fits.
pub open spec fn denotes_u32(text: Seq<char>) -> bool {
    is_unsigned_decimal(text) && decimal_value(without_plus(text)) <= u32::MAX
}

/// Calls `str::parse::<u32>` of the standard library.
///
/// Taken on trust from its documentation: the text is read as an optional
/// plus sign followed by only decimal digits; the call succeeds with the
/// number so denoted if there is at least one digit and the number fits 32
/// bits, and fails on every other text (stray characters, white space,
/// underscores, a lone sign, the empty text, a number too large).
#[verifier::external_body]
fn parse_u32(text: &str) -> (parsed: Result<u32, ParseIntError>)
    ensures
        parsed is Ok <==> denotes_u32(text@),
        parsed matches Ok(value) ==> value == decimal_value(without_plus(text@)),
{
    text.parse::<u32>()
}

/// Reads `text` as an unsigned decimal number of 32 bits.
///
/// Succeeds with the number exactly when the text denotes one, and fails
/// with [`ParseFailure`] on every other text; in particular on every text
/// that is not written as a number. The outcome depends on the text alone.
pub fn parse_unsigned(text: &str) -> (outcome: Result<u32, ParseFailure>)
    ensures
        outcome is Ok <==> denotes_u32(text@),
        outcome matches Ok(value) ==> value == decimal_value(without_plus(text@)),
        !is_unsigned_decimal(text@) ==> outcome == Err::<u32, ParseFailure>(ParseFailure),
{
    match parse_u32(text) {
        Ok(value) => Ok(value),
        Err(_) => Err(ParseFailure),
    }
}

/// Reads the fixed text `42` as a number, the type of the result being
/// stated by annotation rather than inferred.
pub fn change_same_var_type() -> (guess: Result<u32, ParseFailure>)
    ensures
        guess == Ok::<u32, ParseFailure>(42),
{
    proof {
        reveal_strlit("42");
        reveal_with_fuel(decimal_value, 3);
        assert(without_plus("42"@) == "42"@);
    }
    parse_unsigned("42")
}

/// Builds a tuple of three positions that differ in type: a signed
/// 32-bit number, a value of the caller's choosing, and a byte.
///
/// The outer positions hold the fixed numbers 500 and 1. The middle one is
/// handed in, so that it can be of a type that this library does not
/// compute with, such as a fractional number. Each position reads back
/// what was put there.
pub fn tuple_types<T>(middle: T) -> (tup: (i32, T, u8))
    ensures
        tup.0 == 500,
        tup.1 == middle,
        tup.2 == 1,
{
    let tup: (i32, T, u8) = (500, middle, 1);
    tup
}

/// Builds the array 1, 2, 3, 4, 5 and reads its first two elements by
/// index: the element at position zero, then the one at position one.
pub fn array_types() -> (leading: (i32, i32))
    ensures
        leading == (1i32, 2i32),
{
    let a: [i32; 5] = [1, 2, 3, 4, 5];
    let first: i32 = a[0];
    let second: i32 = a[1];
    (first, second)
}

} // verus!
