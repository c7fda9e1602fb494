use vstd::prelude::*;
use vstd::utf8::*;
use std::num::ParseIntError;
use std::string::FromUtf8Error;

verus! {

/// `String::from_utf8`: the text that the bytes encode, or an error when the
/// bytes are not UTF-8.
#[verifier::external_body]
pub(crate) fn string_from_utf8(bytes: Vec<u8>) -> (r: Result<String, FromUtf8Error>)
    ensures
        r is Ok <==> valid_utf8(bytes@),
        r is Ok ==> r->Ok_0@ == decode_utf8(bytes@),
{
    String::from_utf8(bytes)
}

/// The character of the decimal digit `d`.
pub open spec fn digit_char(d: nat) -> char {
    ((48 + d) as u8) as char
}

/// The decimal digits of `n`, without sign and without leading zeros.
pub open spec fn decimal_text(n: nat) -> Seq<char>
    decreases n,
{
    if n < 10 {
        seq![digit_char(n)]
    } else {
        decimal_text(n / 10).push(digit_char(n % 10))
    }
}

/// Whether `c` is a decimal digit.
pub open spec fn is_digit(c: char) -> bool {
    48 <= c as u32 <= 57
}

/// The number that a run of decimal digits spells.
pub open spec fn decimal_value(digits: Seq<char>) -> nat
    decreases digits.len(),
{
    if digits.len() == 0 {
        0
    } else {
        10 * decimal_value(digits.drop_last()) + (digits.last() as u32 - 48) as nat
    }
}

/// The number that `text` spells in decimal, if it is one that 32 bits hold:
/// an optional plus sign, then one digit or more and nothing else.
pub open spec fn parsed_u32(text: Seq<char>) -> Option<u32> {
    let digits = if text.len() > 0 && text[0] == '+' {
        text.drop_first()
    } else {
        text
    };
    if digits.len() > 0 && (forall|i: int| 0 <= i < digits.len() ==> is_digit(#[trigger] digits[i]))
        && decimal_value(digits) <= u32::MAX {
        Some(decimal_value(digits) as u32)
    } else {
        None
    }
}

/// `ToString::to_string` of a `u128`: its decimal digits.
#[verifier::external_body]
pub(crate) fn decimal_string(n: u128) -> (s: String)
    ensures
        s@ == decimal_text(n as nat),
{
    n.to_string()
}

/// `str::parse::<u32>`: the number that the text spells in decimal, or an
/// error when the text is no such number or the number needs more than 32
/// bits.
#[verifier::external_body]
pub(crate) fn parse_u32(text: &str) -> (r: Result<u32, ParseIntError>)
    ensures
        r is Ok <==> parsed_u32(text@) is Some,
        r is Ok ==> parsed_u32(text@) == Some(r->Ok_0),
{
    text.parse::<u32>()
}

/// Whether `text` reads exactly as `literal`.
pub fn text_equals(text: &String, literal: &str) -> (same: bool)
    ensures
        same == (text@ == literal@),
{
    let other = literal.to_owned();
    *text == other
}

/// The position of the first zero byte at or after `from`, or the length of
/// `bytes` when there is none.
pub open spec fn nul_position(bytes: Seq<u8>, from: int) -> int
    decreases bytes.len() - from,
{
    if from >= bytes.len() || bytes[from] == 0 {
        from
    } else {
        nul_position(bytes, from + 1)
    }
}

/// The bytes in front of the first zero byte.
pub open spec fn until_nul(bytes: Seq<u8>) -> Seq<u8> {
    bytes.subrange(0, nul_position(bytes, 0))
}

/// `nul_position` stays inside the sequence and stops on the first zero.
pub proof fn lemma_nul_position(bytes: Seq<u8>, from: int)
    requires
        0 <= from <= bytes.len(),
    ensures
        from <= nul_position(bytes, from) <= bytes.len(),
        forall|j: int| from <= j < nul_position(bytes, from) ==> bytes[j] != 0,
        nul_position(bytes, from) < bytes.len() ==> bytes[nul_position(bytes, from)] == 0,
    decreases bytes.len() - from,
{
    if from >= bytes.len() || bytes[from] == 0 {
    } else {
        lemma_nul_position(bytes, from + 1);
    }
}

/// The bytes of `bytes` in front of its first zero byte.
pub fn cut_at_nul(bytes: &[u8]) -> (r: &[u8])
    ensures
        r@ == until_nul(bytes@),
{
    let mut i: usize = 0;
    while i < bytes.len() && bytes[i] != 0
        invariant
            0 <= i <= bytes@.len(),
            nul_position(bytes@, 0) == nul_position(bytes@, i as int),
        decreases bytes@.len() - i,
    {
        i += 1;
    }
    vstd::slice::slice_subrange(bytes, 0, i)
}

} // verus!
