//! Latin-9 (ISO/IEC 8859-15) characters and strings.
//!
//! [`IsoLatin9Char`] is a single byte of the encoding, guaranteed to be a defined character
//! or an ASCII control code; [`IsoLatin9String`] is a growable buffer of such bytes.
//! [`charset`] states the encoding's table and character classes as specifications, which the
//! contracts of both types speak of.

pub mod buffer;
pub mod character;
pub mod charset;

pub use buffer::{FromIso8859_1Error, IsoLatin9String, MAX_CAPACITY, MAX_TEXT_LEN};
pub use character::{IsoLatin9Char, IsoLatin9CharError};
