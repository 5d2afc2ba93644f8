//! Decimal numbers as text.
//!
//! A price is kept as text and has to be a number. The texts that count as
//! numbers are those that Rust reads as a floating-point number:
//!
//! ```text
//! Number   ::= Sign? ( 'inf' | 'infinity' | 'nan' | Decimal )
//! Decimal  ::= ( Digit+ | Digit+ '.' Digit* | Digit* '.' Digit+ ) Exponent?
//! Exponent ::= 'e' Sign? Digit+
//! Sign     ::= '+' | '-'
//! Digit    ::= '0' ... '9'
//! ```
//!
//! Letters count in either case. The value of the number is not computed
//! here.

use vstd::prelude::*;
use vstd::string::*;
use vstd::utf8::encode_utf8;

verus! {

/// The character `0` in ASCII.
pub const DIGIT_0: u8 = 48;

/// The character `9` in ASCII.
pub const DIGIT_9: u8 = 57;

/// The character `+` in ASCII.
pub const PLUS: u8 = 43;

/// The character `-` in ASCII.
pub const MINUS: u8 = 45;

/// The character `.` in ASCII.
pub const POINT: u8 = 46;

/// The character `A` in ASCII.
pub const UPPER_A: u8 = 65;

/// The character `Z` in ASCII.
pub const UPPER_Z: u8 = 90;

/// The character `a` in ASCII.
pub const LOWER_A: u8 = 97;

/// The character `e` in ASCII.
pub const LOWER_E: u8 = 101;

/// The character `f` in ASCII.
pub const LOWER_F: u8 = 102;

/// The character `i` in ASCII.
pub const LOWER_I: u8 = 105;

/// The character `n` in ASCII.
pub const LOWER_N: u8 = 110;

/// The character `t` in ASCII.
pub const LOWER_T: u8 = 116;

/// The character `y` in ASCII.
pub const LOWER_Y: u8 = 121;

/// The octet is a decimal digit.
pub open spec fn is_digit(b: u8) -> bool {
    DIGIT_0 <= b <= DIGIT_9
}

/// The octet is a sign.
pub open spec fn is_sign(b: u8) -> bool {
    b == PLUS || b == MINUS
}

/// The octet in lower case, where it is a capital letter of ASCII.
pub open spec fn lower(b: u8) -> u8 {
    if UPPER_A <= b <= UPPER_Z {
        (b + 32) as u8
    } else {
        b
    }
}

/// The position of the first octet at or after `from` that is no digit.
pub open spec fn digits_end(s: Seq<u8>, from: int) -> int
    decreases s.len() - from,
{
    if 0 <= from < s.len() && is_digit(s[from]) {
        digits_end(s, from + 1)
    } else {
        from
    }
}

/// From `from` on, `s` spells `inf`, `infinity` or `nan`, in whatever case.
pub open spec fn is_special(s: Seq<u8>, from: int) -> bool {
    let rest = s.len() - from;
    ||| (rest == 3 && lower(s[from]) == LOWER_I && lower(s[from + 1]) == LOWER_N && lower(s[from + 2])
        == LOWER_F)
    ||| (rest == 3 && lower(s[from]) == LOWER_N && lower(s[from + 1]) == LOWER_A && lower(s[from + 2])
        == LOWER_N)
    ||| (rest == 8 && lower(s[from]) == LOWER_I && lower(s[from + 1]) == LOWER_N && lower(s[from + 2])
        == LOWER_F && lower(s[from + 3]) == LOWER_I && lower(s[from + 4]) == LOWER_N && lower(s[from + 5])
        == LOWER_I && lower(s[from + 6]) == LOWER_T && lower(s[from + 7]) == LOWER_Y)
}

/// From `from` on, `s` is an exponent: the letter `e`, an optional sign and
/// at least one digit, up to the end.
pub open spec fn is_exponent(s: Seq<u8>, from: int) -> bool {
    let after_e = from + 1;
    let after_sign = if after_e < s.len() && is_sign(s[after_e]) {
        after_e + 1
    } else {
        after_e
    };
    &&& from < s.len()
    &&& lower(s[from]) == LOWER_E
    &&& digits_end(s, after_sign) > after_sign
    &&& digits_end(s, after_sign) == s.len()
}

/// From `from` on, `s` is a decimal: digits before or after an optional
/// point, at least one in all, and an optional exponent.
pub open spec fn is_decimal(s: Seq<u8>, from: int) -> bool {
    let whole_end = digits_end(s, from);
    let has_point = whole_end < s.len() && s[whole_end] == POINT;
    let fraction_start = if has_point {
        whole_end + 1
    } else {
        whole_end
    };
    let fraction_end = digits_end(s, fraction_start);
    &&& (whole_end - from) + (fraction_end - fraction_start) > 0
    &&& fraction_end == s.len() || is_exponent(s, fraction_end)
}

/// The octets `s` spell a number.
pub open spec fn is_number(s: Seq<u8>) -> bool {
    let start: int = if s.len() > 0 && is_sign(s[0]) {
        1
    } else {
        0
    };
    is_special(s, start) || is_decimal(s, start)
}

/// The text `text` spells a number.
pub open spec fn spells_number(text: Seq<char>) -> bool {
    is_number(encode_utf8(text))
}

/// Whether the octet is a decimal digit.
fn digit(b: u8) -> (yes: bool)
    ensures
        yes == is_digit(b),
{
    DIGIT_0 <= b && b <= DIGIT_9
}

/// Whether the octet is a sign.
fn sign(b: u8) -> (yes: bool)
    ensures
        yes == is_sign(b),
{
    b == PLUS || b == MINUS
}

/// The octet in lower case.
fn lowered(b: u8) -> (low: u8)
    ensures
        low == lower(b),
{
    if UPPER_A <= b && b <= UPPER_Z {
        b + 32
    } else {
        b
    }
}

/// The position of the first octet at or after `from` that is no digit.
fn skip_digits(bytes: &[u8], from: usize) -> (end: usize)
    requires
        from <= bytes.len(),
    ensures
        end == digits_end(bytes@, from as int),
        from <= end <= bytes.len(),
{
    let mut i: usize = from;
    while i < bytes.len() && digit(bytes[i])
        invariant
            from <= i <= bytes.len(),
            digits_end(bytes@, from as int) == digits_end(bytes@, i as int),
        decreases bytes.len() - i,
    {
        i += 1;
    }
    i
}

/// Whether `bytes` spells `inf`, `infinity` or `nan` from `from` on.
fn special(bytes: &[u8], from: usize) -> (yes: bool)
    requires
        from <= bytes.len(),
    ensures
        yes == is_special(bytes@, from as int),
{
    let rest = bytes.len() - from;
    if rest == 3 {
        let a = lowered(bytes[from]);
        let b = lowered(bytes[from + 1]);
        let c = lowered(bytes[from + 2]);
        (a == LOWER_I && b == LOWER_N && c == LOWER_F) || (a == LOWER_N && b == LOWER_A && c == LOWER_N)
    } else if rest == 8 {
        lowered(bytes[from]) == LOWER_I && lowered(bytes[from + 1]) == LOWER_N && lowered(
            bytes[from + 2],
        ) == LOWER_F && lowered(bytes[from + 3]) == LOWER_I && lowered(bytes[from + 4]) == LOWER_N
            && lowered(bytes[from + 5]) == LOWER_I && lowered(bytes[from + 6]) == LOWER_T && lowered(
            bytes[from + 7],
        ) == LOWER_Y
    } else {
        false
    }
}

/// Whether `bytes` is an exponent from `from` on.
fn exponent(bytes: &[u8], from: usize) -> (yes: bool)
    requires
        from <= bytes.len(),
    ensures
        yes == is_exponent(bytes@, from as int),
{
    if from >= bytes.len() || lowered(bytes[from]) != LOWER_E {
        return false;
    }
    let after_e = from + 1;
    let after_sign = if after_e < bytes.len() && sign(bytes[after_e]) {
        after_e + 1
    } else {
        after_e
    };
    let end = skip_digits(bytes, after_sign);
    end > after_sign && end == bytes.len()
}

/// Whether `bytes` is a decimal from `from` on.
fn decimal(bytes: &[u8], from: usize) -> (yes: bool)
    requires
        from <= bytes.len(),
    ensures
        yes == is_decimal(bytes@, from as int),
{
    let whole_end = skip_digits(bytes, from);
    let has_point = whole_end < bytes.len() && bytes[whole_end] == POINT;
    let fraction_start = if has_point {
        whole_end + 1
    } else {
        whole_end
    };
    let fraction_end = skip_digits(bytes, fraction_start);
    if (whole_end - from) + (fraction_end - fraction_start) == 0 {
        return false;
    }
    fraction_end == bytes.len() || exponent(bytes, fraction_end)
}

/// Whether the text spells a number.
pub fn is_decimal_number(text: &str) -> (yes: bool)
    ensures
        yes == spells_number(text@),
{
    let bytes = text.as_bytes();
    let start: usize = if bytes.len() > 0 && sign(bytes[0]) {
        1
    } else {
        0
    };
    special(bytes, start) || decimal(bytes, start)
}

} // verus!
