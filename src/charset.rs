use vstd::prelude::*;

verus! {

/// Whether `b` is a byte that this encoding accepts: ASCII, including its control codes, or one
/// of the characters of the upper range `0xA0..=0xFF`. The bytes `0x80..=0x9F` are undefined.
///
/// The standard leaves the ASCII control codes undefined as well; they are accepted here on
/// purpose, as most tools that handle this encoding do.
pub open spec fn is_valid_byte(b: u8) -> bool {
    b <= 0x7F || 0xA0 <= b
}

/// The eight positions of the upper range where Latin-9 differs from Latin-1.
pub open spec fn is_reassigned(b: u8) -> bool {
    b == 0xA4 || b == 0xA6 || b == 0xA8 || b == 0xB4 || b == 0xB8 || b == 0xBC || b == 0xBD
        || b == 0xBE
}

/// The Unicode scalar value of the byte `b`: the byte itself, read as a code point, except at
/// the reassigned positions.
pub open spec fn decode(b: u8) -> char {
    if b == 0xA4 {
        '\u{20AC}'  // euro sign
    } else if b == 0xA6 {
        '\u{0160}'  // S with caron
    } else if b == 0xA8 {
        '\u{0161}'  // s with caron
    } else if b == 0xB4 {
        '\u{017D}'  // Z with caron
    } else if b == 0xB8 {
        '\u{017E}'  // z with caron
    } else if b == 0xBC {
        '\u{0152}'  // ligature OE
    } else if b == 0xBD {
        '\u{0153}'  // ligature oe
    } else if b == 0xBE {
        '\u{0178}'  // Y with diaeresis
    } else {
        b as char
    }
}

/// The byte that encodes the scalar value `c`, if any.
pub open spec fn encode(c: char) -> Option<u8> {
    let v = c as u32;
    if v == 0x20AC {
        Some(0xA4u8)
    } else if v == 0x0160 {
        Some(0xA6u8)
    } else if v == 0x0161 {
        Some(0xA8u8)
    } else if v == 0x017D {
        Some(0xB4u8)
    } else if v == 0x017E {
        Some(0xB8u8)
    } else if v == 0x0152 {
        Some(0xBCu8)
    } else if v == 0x0153 {
        Some(0xBDu8)
    } else if v == 0x0178 {
        Some(0xBEu8)
    } else if v <= 0xFF && is_valid_byte(v as u8) && !is_reassigned(v as u8) {
        Some(v as u8)
    } else {
        None
    }
}

/// Every valid byte decodes to a scalar value that encodes back to that byte.
pub proof fn lemma_encode_decode(b: u8)
    requires
        is_valid_byte(b),
    ensures
        encode(decode(b)) == Some(b),
{
}

/// Every scalar value that can be encoded decodes back from the byte it encodes to, and that
/// byte is valid.
pub proof fn lemma_decode_encode(c: char)
    requires
        encode(c) is Some,
    ensures
        is_valid_byte(encode(c)->0),
        decode(encode(c)->0) == c,
{
}


/// ASCII control codes: `0x00..=0x1F` and `0x7F`.
pub open spec fn is_control_byte(b: u8) -> bool {
    b <= 0x1F || b == 0x7F
}

/// Decimal digits `0x30..=0x39` and the superscripts two, three and one.
pub open spec fn is_numeric_byte(b: u8) -> bool {
    (0x30 <= b && b <= 0x39) || b == 0xB2 || b == 0xB3 || b == 0xB9
}

/// Space, and the ASCII whitespace control codes tab, line feed, vertical tab, form feed and
/// carriage return.
pub open spec fn is_whitespace_byte(b: u8) -> bool {
    (0x09 <= b && b <= 0x0D) || b == 0x20
}

/// Uppercase letters: ASCII `A-Z`, the capitals with caron, the ligature OE, Y with diaeresis,
/// and the capitals of `0xC0..=0xDE` but the multiplication sign.
pub open spec fn is_uppercase_byte(b: u8) -> bool {
    (0x41 <= b && b <= 0x5A) || b == 0xA6 || b == 0xB4 || b == 0xBC || b == 0xBE || (0xC0 <= b
        && b <= 0xDE && b != 0xD7)
}

/// Lowercase letters: ASCII `a-z`, the feminine and masculine ordinals, micro sign, the small
/// letters with caron, the ligature oe, sharp s, and `0xE0..=0xFF` but the division sign.
pub open spec fn is_lowercase_byte(b: u8) -> bool {
    (0x61 <= b && b <= 0x7A) || b == 0xA8 || b == 0xAA || b == 0xB5 || b == 0xB8 || b == 0xBA
        || b == 0xBD || b == 0xDF || (0xE0 <= b && b != 0xF7)
}

/// Letters, of either case: every letter of this encoding has a case.
pub open spec fn is_alphabetic_byte(b: u8) -> bool {
    is_uppercase_byte(b) || is_lowercase_byte(b)
}

/// The value of `b` as a digit: `0-9` are 0 to 9, and `a-z` and `A-Z` are 10 to 35.
pub open spec fn digit_value(b: u8) -> Option<nat> {
    if 0x30 <= b && b <= 0x39 {
        Some((b - 0x30) as nat)
    } else if 0x61 <= b && b <= 0x7A {
        Some((b - 0x61 + 10) as nat)
    } else if 0x41 <= b && b <= 0x5A {
        Some((b - 0x41 + 10) as nat)
    } else {
        None
    }
}

/// Whether `b` is a digit of value below `radix`.
pub open spec fn is_digit_in(b: u8, radix: nat) -> bool {
    match digit_value(b) {
        Some(v) => v < radix,
        None => false,
    }
}

/// The hexadecimal digit of `n`, in upper or lower case.
pub open spec fn hex_digit(n: u8, upper: bool) -> char {
    if n < 10 {
        (0x30 + n) as u8 as char
    } else if upper {
        (0x41 + n - 10) as u8 as char
    } else {
        (0x61 + n - 10) as u8 as char
    }
}

/// `b` as two hexadecimal digits, the high one first.
pub open spec fn hex_of(b: u8, upper: bool) -> Seq<char> {
    seq![hex_digit(b / 16, upper), hex_digit(b % 16, upper)]
}

} // verus!
