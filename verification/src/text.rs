//! Numbers and bytes as text.

use vstd::prelude::*;
use vstd::utf8::decode_utf8;
use vstd::utf8::valid_utf8;

verus! {

/// The character of a decimal digit.
pub open spec fn digit_char(digit: nat) -> char
    recommends
        digit < 10,
{
    (48 + digit) as u8 as char
}

/// A number in decimal, without sign or leading zeros.
pub open spec fn decimal_text(number: nat) -> Seq<char>
    decreases number,
{
    if number < 10 {
        seq![digit_char(number)]
    } else {
        decimal_text(number / 10).push(digit_char(number % 10))
    }
}

/// As many zeros as `count` says, none where it says less than one.
pub open spec fn zeros(count: int) -> Seq<char> {
    Seq::new(
        if count > 0 {
            count as nat
        } else {
            0
        },
        |i: int| '0',
    )
}

/// A number in decimal, with zeros before its digits until it is `width` characters
/// wide; the minus sign of a negative number comes first and counts.
pub open spec fn padded_text(number: int, width: nat) -> Seq<char> {
    if number < 0 {
        seq!['-'] + zeros(width - 1 - decimal_text((-number) as nat).len()) + decimal_text(
            (-number) as nat,
        )
    } else {
        zeros(width - decimal_text(number as nat).len()) + decimal_text(number as nat)
    }
}

/// Formats a number with `format!` in a field of `width` characters that is filled
/// with zeros: the number in decimal after its sign, and zeros between the two where
/// that is narrower than the field.
#[verifier::external_body]
pub(crate) fn integer_to_string(number: i64, width: usize) -> (text: String)
    requires
        width <= 64,
    ensures
        text@ == padded_text(number as int, width as nat),
{
    format!("{:0width$}", number, width = width)
}

/// Calls `to_string` on a `u16`: the number in decimal.
#[verifier::external_body]
pub(crate) fn u16_to_string(number: u16) -> (text: String)
    ensures
        text@ == decimal_text(number as nat),
{
    number.to_string()
}

/// Calls `to_string` on a `usize`: the number in decimal.
#[verifier::external_body]
pub(crate) fn usize_to_string(number: usize) -> (text: String)
    ensures
        text@ == decimal_text(number as nat),
{
    number.to_string()
}

/// The words with which `String::from_utf8` refuses bytes that are no valid UTF-8.
pub uninterp spec fn utf8_error_text(bytes: Seq<u8>) -> Seq<char>;

/// Calls `String::from_utf8` on a copy of `bytes`. Valid UTF-8 gives the text that it
/// encodes, anything else gives the words of the refusal.
#[verifier::external_body]
pub(crate) fn string_from_utf8(bytes: &[u8]) -> (text: Result<String, String>)
    ensures
        text is Ok <==> valid_utf8(bytes@),
        text matches Ok(decoded) ==> decoded@ == decode_utf8(bytes@),
        text matches Err(complaint) ==> complaint@ == utf8_error_text(bytes@),
{
    match String::from_utf8(bytes.to_vec()) {
        Ok(decoded) => Ok(decoded),
        Err(error) => Err(error.to_string()),
    }
}

/// A number in decimal, after its sign where it is negative.
pub fn i32_to_string(number: i32) -> (text: String)
    ensures
        text@ == padded_text(number as int, 0),
{
    integer_to_string(number as i64, 0)
}

} // verus!
