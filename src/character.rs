use vstd::prelude::*;

use vstd::std_specs::convert::{FromSpec, FromSpecImpl, TryFromSpec, TryFromSpecImpl};

use crate::charset::{
    decode, digit_value, encode, hex_digit, hex_of, is_alphabetic_byte, is_control_byte,
    is_digit_in, is_lowercase_byte, is_numeric_byte, is_uppercase_byte, is_valid_byte,
    is_whitespace_byte, lemma_decode_encode, lemma_encode_decode,
};

verus! {

/// Relies on `String::push`: appends the character to the end of the string. It panics when
/// the string would exceed `isize::MAX` bytes; as a character takes at most four bytes, the
/// bound on the number of characters in `requires` rules that out.
#[verifier::external_body]
pub(crate) fn push_char(s: &mut String, c: char)
    requires
        old(s)@.len() < usize::MAX / 8,
    ensures
        final(s)@ == old(s)@.push(c),
{
    s.push(c)
}

/// A single Latin-9 character, stored as its byte.
///
/// A value always holds a valid byte (see [`crate::charset::is_valid_byte`]): an ASCII
/// character, an ASCII control code, or a character of the upper range `0xA0..=0xFF`.
#[derive(Clone, Copy, Debug, PartialEq, Eq, Structural, PartialOrd, Ord, Hash)]
pub struct IsoLatin9Char(u8);

/// Why a byte or a scalar value is not a Latin-9 character.
#[derive(Clone, Copy, Debug, PartialEq, Eq, Structural, PartialOrd, Ord, Hash)]
pub enum IsoLatin9CharError {
    /// The byte lies in `0x80..=0x9F`, which the encoding leaves undefined.
    Undefined,
    /// The scalar value has no encoding in Latin-9.
    Invalid,
}

impl View for IsoLatin9Char {
    type V = u8;

    /// The byte that encodes this character.
    closed spec fn view(&self) -> u8 {
        self.0
    }
}

impl IsoLatin9Char {
    #[verifier::type_invariant]
    closed spec fn inv(self) -> bool {
        is_valid_byte(self.0)
    }

    /// The character whose byte is `b`, in specifications only.
    pub closed spec fn spec_new(b: u8) -> IsoLatin9Char {
        IsoLatin9Char(b)
    }

    /// The character that [`Self::spec_new`] gives holds the byte it was given.
    pub proof fn lemma_spec_new(b: u8)
        ensures
            Self::spec_new(b)@ == b,
    {
    }

    /// Whether this character is a letter, of either case.
    pub fn is_alphabetic(&self) -> (r: bool)
        ensures
            r == is_alphabetic_byte(self@),
    {
        self.is_uppercase() || self.is_lowercase()
    }

    /// Whether this character is a letter or numeric.
    pub fn is_alphanumeric(&self) -> (r: bool)
        ensures
            r == (is_alphabetic_byte(self@) || is_numeric_byte(self@)),
    {
        self.is_alphabetic() || self.is_numeric()
    }

    /// Whether this character is one of the ASCII control codes `0x00..=0x1F` and `0x7F`.
    pub fn is_control(&self) -> (r: bool)
        ensures
            r == is_control_byte(self@),
    {
        self.0 <= 0x1F || self.0 == 0x7F
    }

    /// Whether this character is a digit `0-9`, `a-z` or `A-Z` whose value is below `radix`.
    /// Letters count from 10 and ignore case.
    pub fn is_digit(&self, radix: u8) -> (r: bool)
        requires
            radix <= 36,
        ensures
            r == is_digit_in(self@, radix as nat),
    {
        let b = self.0;
        let value: u8 = if 0x30 <= b && b <= 0x39 {
            b - 0x30
        } else if 0x61 <= b && b <= 0x7A {
            b - 0x61 + 10
        } else if 0x41 <= b && b <= 0x5A {
            b - 0x41 + 10
        } else {
            return false;
        };
        assert(digit_value(b) == Some(value as nat));
        value < radix
    }

    /// Whether this character is a decimal digit or one of the superscripts two, three and one.
    pub fn is_numeric(&self) -> (r: bool)
        ensures
            r == is_numeric_byte(self@),
    {
        match self.0 {
            0x30..=0x39 | 0xB2..=0xB3 | 0xB9 => true,
            _ => false,
        }
    }

    /// Whether this character is a space or an ASCII whitespace control code.
    pub fn is_whitespace(&self) -> (r: bool)
        ensures
            r == is_whitespace_byte(self@),
    {
        match self.0 {
            0x09..=0x0D | 0x20 => true,
            _ => false,
        }
    }

    /// Whether this character is a lowercase letter.
    pub fn is_lowercase(&self) -> (r: bool)
        ensures
            r == is_lowercase_byte(self@),
    {
        match self.0 {
            0x61..=0x7A | 0xA8 | 0xAA | 0xB5 | 0xB8 | 0xBA | 0xBD | 0xDF..=0xF6 | 0xF8..=0xFF => true,
            _ => false,
        }
    }

    /// Whether this character is an uppercase letter.
    pub fn is_uppercase(&self) -> (r: bool)
        ensures
            r == is_uppercase_byte(self@),
    {
        match self.0 {
            0x41..=0x5A | 0xA6 | 0xB4 | 0xBC | 0xBE | 0xC0..=0xD6 | 0xD8..=0xDE => true,
            _ => false,
        }
    }

    /// Whether this character lies in the ASCII range.
    pub fn is_ascii(&self) -> (r: bool)
        ensures
            r == (self@ <= 0x7F),
    {
        self.0 <= 0x7F
    }

    /// The character that the byte `b` encodes; `Undefined` for `0x80..=0x9F`.
    pub fn from_byte(b: u8) -> (r: Result<IsoLatin9Char, IsoLatin9CharError>)
        ensures
            is_valid_byte(b) <==> r is Ok,
            r is Ok ==> r->Ok_0@ == b,
            r is Err ==> r->Err_0 == IsoLatin9CharError::Undefined,
            is_valid_byte(b) ==> r == Ok::<IsoLatin9Char, IsoLatin9CharError>(Self::spec_new(b)),
    {
        if b <= 0x7F || 0xA0 <= b {
            Ok(IsoLatin9Char(b))
        } else {
            Err(IsoLatin9CharError::Undefined)
        }
    }

    /// The byte that encodes this character.
    pub fn to_byte(self) -> (r: u8)
        ensures
            r == self@,
            is_valid_byte(r),
    {
        proof { use_type_invariant(&self); }
        self.0
    }

    /// The character that encodes the scalar value `c`; `Invalid` where Latin-9 has none.
    pub fn from_char(c: char) -> (r: Result<IsoLatin9Char, IsoLatin9CharError>)
        ensures
            encode(c) is Some <==> r is Ok,
            r is Ok ==> r->Ok_0@ == encode(c)->0,
            r is Err ==> r->Err_0 == IsoLatin9CharError::Invalid,
            r is Ok ==> r->Ok_0 == Self::spec_new(encode(c)->0),
    {
        let v: u32 = c as u32;
        let b: u8 = match v {
            0x20AC => 0xA4,
            0x0160 => 0xA6,
            0x0161 => 0xA8,
            0x017D => 0xB4,
            0x017E => 0xB8,
            0x0152 => 0xBC,
            0x0153 => 0xBD,
            0x0178 => 0xBE,
            0x00..=0x7F | 0xA0..=0xA3 | 0xA5 | 0xA7 | 0xA9..=0xB3 | 0xB5..=0xB7 | 0xB9..=0xBB
            | 0xBF..=0xFF => v as u8,
            _ => return Err(IsoLatin9CharError::Invalid),
        };
        proof { lemma_decode_encode(c); }
        Ok(IsoLatin9Char(b))
    }

    /// The scalar value of this character.
    pub fn to_char(self) -> (r: char)
        ensures
            r == decode(self@),
    {
        match self.0 {
            0xA4 => '\u{20AC}',
            0xA6 => '\u{0160}',
            0xA8 => '\u{0161}',
            0xB4 => '\u{017D}',
            0xB8 => '\u{017E}',
            0xBC => '\u{0152}',
            0xBD => '\u{0153}',
            0xBE => '\u{0178}',
            b => b as char,
        }
    }

    /// The character itself, as text.
    pub fn to_display_string(&self) -> (r: String)
        ensures
            r@ == seq![decode(self@)],
    {
        let mut s = String::new();
        push_char(&mut s, self.to_char());
        s
    }

    /// The character between single quotes.
    pub fn to_debug_string(&self) -> (r: String)
        ensures
            r@ == seq!['\'', decode(self@), '\''],
    {
        let mut s = String::new();
        push_char(&mut s, '\'');
        push_char(&mut s, self.to_char());
        push_char(&mut s, '\'');
        s
    }

    /// The byte as two lowercase hexadecimal digits.
    pub fn to_lower_hex(&self) -> (r: String)
        ensures
            r@ == hex_of(self@, false),
    {
        hex_string(self.0, false)
    }

    /// The byte as two uppercase hexadecimal digits.
    pub fn to_upper_hex(&self) -> (r: String)
        ensures
            r@ == hex_of(self@, true),
    {
        hex_string(self.0, true)
    }
}

/// The hexadecimal digit of `n`, which is below 16.
fn hex_digit_char(n: u8, upper: bool) -> (r: char)
    requires
        n < 16,
    ensures
        r == hex_digit(n, upper),
{
    if n < 10 {
        (0x30 + n) as char
    } else if upper {
        (0x41 + n - 10) as char
    } else {
        (0x61 + n - 10) as char
    }
}

/// `b` as two hexadecimal digits, zero-padded.
fn hex_string(b: u8, upper: bool) -> (r: String)
    ensures
        r@ == hex_of(b, upper),
{
    let mut s = String::new();
    push_char(&mut s, hex_digit_char(b / 16, upper));
    push_char(&mut s, hex_digit_char(b % 16, upper));
    assert(s@ =~= hex_of(b, upper));
    s
}

impl Default for IsoLatin9Char {
    /// The null character.
    fn default() -> (r: IsoLatin9Char)
        ensures
            r@ == 0,
    {
        IsoLatin9Char(0)
    }
}

impl TryFrom<u8> for IsoLatin9Char {
    type Error = IsoLatin9CharError;

    fn try_from(b: u8) -> (r: Result<IsoLatin9Char, IsoLatin9CharError>) {
        IsoLatin9Char::from_byte(b)
    }
}

impl TryFromSpecImpl<u8> for IsoLatin9Char {
    open spec fn obeys_try_from_spec() -> bool {
        true
    }

    open spec fn try_from_spec(b: u8) -> Result<IsoLatin9Char, IsoLatin9CharError> {
        if is_valid_byte(b) {
            Ok(IsoLatin9Char::spec_new(b))
        } else {
            Err(IsoLatin9CharError::Undefined)
        }
    }
}

impl TryFrom<char> for IsoLatin9Char {
    type Error = IsoLatin9CharError;

    fn try_from(c: char) -> (r: Result<IsoLatin9Char, IsoLatin9CharError>) {
        IsoLatin9Char::from_char(c)
    }
}

impl TryFromSpecImpl<char> for IsoLatin9Char {
    open spec fn obeys_try_from_spec() -> bool {
        true
    }

    open spec fn try_from_spec(c: char) -> Result<IsoLatin9Char, IsoLatin9CharError> {
        match encode(c) {
            Some(b) => Ok(IsoLatin9Char::spec_new(b)),
            None => Err(IsoLatin9CharError::Invalid),
        }
    }
}

impl From<IsoLatin9Char> for u8 {
    fn from(c: IsoLatin9Char) -> (r: u8) {
        c.to_byte()
    }
}

impl FromSpecImpl<IsoLatin9Char> for u8 {
    open spec fn obeys_from_spec() -> bool {
        true
    }

    open spec fn from_spec(c: IsoLatin9Char) -> u8 {
        c@
    }
}

impl From<IsoLatin9Char> for char {
    fn from(c: IsoLatin9Char) -> (r: char) {
        c.to_char()
    }
}

impl FromSpecImpl<IsoLatin9Char> for char {
    open spec fn obeys_from_spec() -> bool {
        true
    }

    open spec fn from_spec(c: IsoLatin9Char) -> char {
        decode(c@)
    }
}

/// Converting a valid byte to a character and back gives the byte.
pub proof fn lemma_byte_round_trip(b: u8)
    requires
        is_valid_byte(b),
    ensures
        <IsoLatin9Char as TryFromSpec<u8>>::try_from_spec(b) is Ok,
        <u8 as FromSpec<IsoLatin9Char>>::from_spec(
            <IsoLatin9Char as TryFromSpec<u8>>::try_from_spec(b)->Ok_0,
        ) == b,
{
}

/// Converting the character of a valid byte to its scalar value and back gives that character.
pub proof fn lemma_char_round_trip(b: u8)
    requires
        is_valid_byte(b),
    ensures
        <IsoLatin9Char as TryFromSpec<char>>::try_from_spec(
            <char as FromSpec<IsoLatin9Char>>::from_spec(IsoLatin9Char::spec_new(b)),
        ) == Ok::<IsoLatin9Char, IsoLatin9CharError>(IsoLatin9Char::spec_new(b)),
{
    lemma_encode_decode(b);
}

/// No byte of `0x80..=0x9F` is a character, and no scalar value of `U+0080..=U+009F` can be
/// encoded.
pub proof fn lemma_undefined_band(b: u8, c: char)
    requires
        0x80 <= b <= 0x9F,
        0x80 <= c as u32 <= 0x9F,
    ensures
        <IsoLatin9Char as TryFromSpec<u8>>::try_from_spec(b) == Err::<
            IsoLatin9Char,
            IsoLatin9CharError,
        >(IsoLatin9CharError::Undefined),
        <IsoLatin9Char as TryFromSpec<char>>::try_from_spec(c) == Err::<
            IsoLatin9Char,
            IsoLatin9CharError,
        >(IsoLatin9CharError::Invalid),
{
}

} // verus!
