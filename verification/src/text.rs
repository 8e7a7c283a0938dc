//! Numbers as text and text as numbers.
//!
//! Writing and reading decimal numbers is the work of the standard library.
//! What it writes is stated here digit by digit; what it reads is named, and
//! of the names it is stated that what was written is read back as it was.
//! None of this is proved of the standard library.

use vstd::prelude::*;

verus! {

/// The character that stands for the digit `d`.
pub open spec fn digit_char(d: int) -> char {
    if d == 0 {
        '0'
    } else if d == 1 {
        '1'
    } else if d == 2 {
        '2'
    } else if d == 3 {
        '3'
    } else if d == 4 {
        '4'
    } else if d == 5 {
        '5'
    } else if d == 6 {
        '6'
    } else if d == 7 {
        '7'
    } else if d == 8 {
        '8'
    } else {
        '9'
    }
}

/// The decimal digits of `n`, the most significant first, without leading
/// zeros: zero is the one digit `0`.
pub open spec fn digits(n: nat) -> Seq<char>
    decreases n,
{
    if n < 10 {
        seq![digit_char(n as int)]
    } else {
        digits(n / 10).push(digit_char((n % 10) as int))
    }
}

/// The decimal text of `n`: its digits, after a minus sign if it is negative.
pub open spec fn decimal_text(n: int) -> Seq<char> {
    if n < 0 {
        seq!['-'] + digits((-n) as nat)
    } else {
        digits(n as nat)
    }
}

/// `text` without the white space at its beginning and at its end.
pub uninterp spec fn trimmed_text(text: Seq<char>) -> Seq<char>;

/// The number that `text` is the decimal text of, with or without a sign, or
/// none if it is no such text or the number does not fit in 64 bits with a sign.
pub uninterp spec fn parsed_signed(text: Seq<char>) -> Option<int>;

/// The number that `text` is the decimal text of, with or without a plus
/// sign, or none if it is no such text or the number does not fit in 64 bits.
pub uninterp spec fn parsed_unsigned(text: Seq<char>) -> Option<int>;

/// Calls `to_string` on an `i128`. Not proved: the text is `decimal_text` of
/// the number, that is a minus sign if it is negative and then its digits
/// without leading zeros.
#[verifier::external_body]
pub(crate) fn decimal(n: i128) -> (text: String)
    ensures
        text@ == decimal_text(n as int),
{
    n.to_string()
}

/// Calls `str::trim`. Not proved: the slice is `trimmed_text` of the text,
/// and the decimal text of a number, which holds no white space, is left as
/// it is.
#[verifier::external_body]
pub(crate) fn trimmed(text: &str) -> (inner: &str)
    ensures
        inner@ == trimmed_text(text@),
        forall|n: int| text@ == #[trigger] decimal_text(n) ==> inner@ == text@,
{
    text.trim()
}

/// Calls `str::parse::<i64>`. Not proved: the number is `parsed_signed` of
/// the text, there is none exactly when the parser reports an error, and the
/// decimal text of a number that fits in an `i64` is read as that number.
#[verifier::external_body]
pub(crate) fn parse_signed(text: &str) -> (number: Option<i64>)
    ensures
        match number {
            Some(n) => parsed_signed(text@) == Some(n as int),
            None => parsed_signed(text@) is None,
        },
        forall|n: int| i64::MIN <= n <= i64::MAX && text@ == #[trigger] decimal_text(n) ==> number == Some(n as i64),
{
    text.parse::<i64>().ok()
}

/// Calls `str::parse::<u64>`. Not proved: the number is `parsed_unsigned` of
/// the text, there is none exactly when the parser reports an error, and the
/// decimal text of a number that fits in a `u64` is read as that number.
#[verifier::external_body]
pub(crate) fn parse_unsigned(text: &str) -> (number: Option<u64>)
    ensures
        match number {
            Some(n) => parsed_unsigned(text@) == Some(n as int),
            None => parsed_unsigned(text@) is None,
        },
        forall|n: int| 0 <= n <= u64::MAX && text@ == #[trigger] decimal_text(n) ==> number == Some(n as u64),
{
    text.parse::<u64>().ok()
}

/// The `i32` that `text` stands for once the white space around it is taken
/// off, or none if it stands for none.
pub open spec fn spec_parse_i32(text: Seq<char>) -> Option<i32> {
    match parsed_signed(trimmed_text(text)) {
        Some(n) => if i32::MIN <= n <= i32::MAX {
            Some(n as i32)
        } else {
            None
        },
        None => None,
    }
}

/// A number that was read, as an `i32`: none if none was read or if it is
/// out of the range of an `i32`.
pub open spec fn spec_narrowed_i32(read: Option<i64>) -> Option<i32> {
    match read {
        Some(n) => if i32::MIN <= n <= i32::MAX {
            Some(n as i32)
        } else {
            None
        },
        None => None,
    }
}

#[verifier::when_used_as_spec(spec_narrowed_i32)]
pub fn narrowed_i32(read: Option<i64>) -> (number: Option<i32>)
    ensures
        number == spec_narrowed_i32(read),
{
    match read {
        Some(n) => if n >= i32::MIN as i64 && n <= i32::MAX as i64 {
            Some(n as i32)
        } else {
            None
        },
        None => None,
    }
}

/// Reads an `i32`, white space around it allowed. The decimal text of an
/// `i32` is read as that number.
pub fn parse_i32(text: &str) -> (number: Option<i32>)
    ensures
        number == spec_parse_i32(text@),
        forall|n: int| i32::MIN <= n <= i32::MAX && text@ == #[trigger] decimal_text(n) ==> number == Some(n as i32),
{
    narrowed_i32(parse_signed(trimmed(text)))
}

/// The `u64` that `text` stands for once the white space around it is taken
/// off, or none if it stands for none.
pub open spec fn spec_parse_u64(text: Seq<char>) -> Option<u64> {
    match parsed_unsigned(trimmed_text(text)) {
        Some(n) => if 0 <= n <= u64::MAX {
            Some(n as u64)
        } else {
            None
        },
        None => None,
    }
}

/// Reads a `u64`, white space around it allowed. The decimal text of a
/// `u64` is read as that number.
pub fn parse_u64(text: &str) -> (number: Option<u64>)
    ensures
        number == spec_parse_u64(text@),
        forall|n: int| 0 <= n <= u64::MAX && text@ == #[trigger] decimal_text(n) ==> number == Some(n as u64),
{
    parse_unsigned(trimmed(text))
}

/// The `u32` that `text` stands for once the white space around it is taken
/// off, or none if it stands for none.
pub open spec fn spec_parse_u32(text: Seq<char>) -> Option<u32> {
    match spec_parse_u64(text) {
        Some(n) => if n <= u32::MAX {
            Some(n as u32)
        } else {
            None
        },
        None => None,
    }
}

/// A number that was read, as a `u32`: none if none was read or if it is
/// out of the range of a `u32`.
pub open spec fn spec_narrowed_u32(read: Option<u64>) -> Option<u32> {
    match read {
        Some(n) => if n <= u32::MAX {
            Some(n as u32)
        } else {
            None
        },
        None => None,
    }
}

#[verifier::when_used_as_spec(spec_narrowed_u32)]
pub fn narrowed_u32(read: Option<u64>) -> (number: Option<u32>)
    ensures
        number == spec_narrowed_u32(read),
{
    match read {
        Some(n) => if n <= u32::MAX as u64 {
            Some(n as u32)
        } else {
            None
        },
        None => None,
    }
}

/// Reads a `u32`, white space around it allowed. The decimal text of a
/// `u32` is read as that number.
pub fn parse_u32(text: &str) -> (number: Option<u32>)
    ensures
        number == spec_parse_u32(text@),
        forall|n: int| 0 <= n <= u32::MAX && text@ == #[trigger] decimal_text(n) ==> number == Some(n as u32),
{
    narrowed_u32(parse_u64(text))
}

/// Writes an `i32` in decimal.
pub fn i32_text(n: i32) -> (text: String)
    ensures
        text@ == decimal_text(n as int),
{
    decimal(n as i128)
}

/// Writes a `u64` in decimal.
pub fn u64_text(n: u64) -> (text: String)
    ensures
        text@ == decimal_text(n as int),
{
    decimal(n as i128)
}

/// Writes a `usize` in decimal.
pub fn usize_text(n: usize) -> (text: String)
    ensures
        text@ == decimal_text(n as int),
{
    decimal(n as i128)
}

} // verus!
