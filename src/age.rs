//! The age field: its text is read as a `u8`, and a text that is not one
//! is shown as an error.
use vstd::prelude::*;

verus! {

/// The age the field starts with.
pub const INITIAL_AGE: u8 = 10;

/// std's error for a text that is not an integer of the asked type; it is
/// carried through to the page, which shows its message.
#[verifier::external_type_specification]
#[verifier::external_body]
pub struct ExParseIntError(core::num::ParseIntError);

/// An ASCII decimal digit.
pub open spec fn is_digit(c: char) -> bool {
    '0' <= c && c <= '9'
}

/// The value of a decimal digit.
pub open spec fn digit_value(c: char) -> nat {
    ((c as u32) - ('0' as u32)) as nat
}

/// The value of a run of decimal digits, most significant first.
pub open spec fn digits_value(s: Seq<char>) -> nat
    decreases s.len(),
{
    if s.len() == 0 {
        0
    } else {
        digits_value(s.drop_last()) * 10 + digit_value(s.last())
    }
}

/// The text without its leading `+`, if it has one.
pub open spec fn unsigned_digits(s: Seq<char>) -> Seq<char> {
    if s.len() > 0 && s[0] == '+' {
        s.drop_first()
    } else {
        s
    }
}

/// An optional `+` followed by one or more decimal digits, nothing else.
pub open spec fn is_unsigned_text(s: Seq<char>) -> bool {
    let d = unsigned_digits(s);
    d.len() > 0 && forall|i: int| 0 <= i < d.len() ==> is_digit(#[trigger] d[i])
}

/// The `u8` that the text denotes, if it denotes one.
pub open spec fn u8_text_value(s: Seq<char>) -> Option<u8> {
    if is_unsigned_text(s) && digits_value(unsigned_digits(s)) <= 255 {
        Some(digits_value(unsigned_digits(s)) as u8)
    } else {
        None
    }
}

/// Relies on `<u8 as FromStr>::from_str`: it accepts an optional `+` and
/// decimal digits whose value fits in a `u8`, and fails on anything else.
#[verifier::external_body]
fn parse_u8(s: &str) -> (r: Result<u8, core::num::ParseIntError>)
    ensures
        match r {
            Ok(v) => u8_text_value(s@) == Some(v),
            Err(_) => u8_text_value(s@) is None,
        },
{
    s.parse::<u8>()
}

/// The age read from the field's text, or the error that is shown in its
/// place.
pub fn parse_age(text: &str) -> (r: Result<u8, core::num::ParseIntError>)
    ensures
        r is Ok <==> u8_text_value(text@) is Some,
        r matches Ok(v) ==> u8_text_value(text@) == Some(v),
{
    parse_u8(text)
}

} // verus!
