use iso8859_15::{IsoLatin9Char, IsoLatin9CharError};

fn ch(byte: u8) -> IsoLatin9Char {
    IsoLatin9Char::try_from(byte).unwrap()
}

fn valid_bytes() -> Vec<u8> {
    (0x00..=0xFFu8).filter(|b| !(0x80..=0x9F).contains(b)).collect()
}

#[test]
fn is_alphabetic() {
    for byte in [b'A', b'Z', b'a', b'z', 0xA6, 0xA8, 0xAA, 0xB5, 0xBC, 0xBD, 0xBE, 0xC6, 0xDF, 0xFF] {
        assert!(ch(byte).is_alphabetic(), "0x{byte:x}");
    }
    for byte in [b'0', b'9', b' ', b'_', b'\0', 0xA0, 0xA4, 0xB2, 0xD7, 0xF7] {
        assert!(!ch(byte).is_alphabetic(), "0x{byte:x}");
    }
}

#[test]
fn is_alphanumeric_letters_and_numbers() {
    assert!(ch(b'q').is_alphanumeric());
    assert!(ch(b'7').is_alphanumeric());
    assert!(ch(0xB9).is_alphanumeric());
    assert!(ch(0xC9).is_alphanumeric());
    assert!(!ch(b'-').is_alphanumeric());
    assert!(!ch(0xA7).is_alphanumeric());
}

#[test]
fn is_control() {
    for byte in 0x00..=0x1F {
        assert!(ch(byte).is_control());
    }
    assert!(ch(0x7F).is_control());
    for byte in valid_bytes() {
        if byte >= 0x20 && byte != 0x7F {
            assert!(!ch(byte).is_control(), "0x{byte:x}");
        }
    }
}

#[test]
fn is_digit() {
    assert!(ch(b'0').is_digit(10));
    assert!(ch(b'1').is_digit(2));
    assert!(ch(b'2').is_digit(3));
    assert!(ch(b'9').is_digit(10));
    assert!(ch(b'a').is_digit(16),);
    assert!(ch(b'A').is_digit(16),);
    assert!(ch(b'b').is_digit(16),);
    assert!(ch(b'B').is_digit(16),);
    assert!(ch(b'A').is_digit(36),);
    assert!(ch(b'z').is_digit(36),);
    assert!(ch(b'Z').is_digit(36),);
    assert!(!ch(b'[').is_digit(36));
    assert!(!ch(b'`').is_digit(36));
    assert!(!ch(b'{').is_digit(36));
    assert!(!ch(b'$').is_digit(36));
    assert!(!ch(b'@').is_digit(16));
    assert!(!ch(b'G').is_digit(16));
    assert!(!ch(b'g').is_digit(16));
    assert!(!ch(b' ').is_digit(10));
    assert!(!ch(b'/').is_digit(10));
    assert!(!ch(b':').is_digit(10));
    assert!(!ch(b':').is_digit(11));
}

#[test]
fn is_digit_agrees_with_ascii_digits_for_every_radix() {
    for byte in valid_bytes() {
        for radix in 2..=36u8 {
            let expected = byte.is_ascii() && (byte as char).is_digit(radix as u32);
            assert_eq!(ch(byte).is_digit(radix), expected, "0x{byte:x} radix {radix}");
        }
    }
}

#[test]
fn is_numeric() {
    let mut numerics: Vec<u8> = (0x30..=0x39).collect();
    numerics.extend([0xB2, 0xB3, 0xB9]);
    for byte in valid_bytes() {
        if numerics.contains(&byte) {
            assert!(ch(byte).is_numeric());
        } else {
            assert!(!ch(byte).is_numeric());
        }
    }
}

#[test]
fn is_whitespace() {
    assert!(ch(b' ').is_whitespace());
    assert!(ch(b'\t').is_whitespace());
    assert!(ch(b'\n').is_whitespace());
    assert!(!ch(b'a').is_whitespace());
    assert!(!ch(b'_').is_whitespace());
    assert!(!ch(b'\0').is_whitespace());
}

#[test]
fn is_uppercase() {
    assert!(ch(b'A').is_uppercase());
    assert!(ch(b'Z').is_uppercase());
    assert!(!ch(b'a').is_uppercase());
    assert!(!ch(b'z').is_uppercase());
    assert!(!ch(b'0').is_uppercase());
    assert!(!ch(b'9').is_uppercase());
    assert!(!ch(b'_').is_uppercase());
    assert!(!ch(b'\0').is_uppercase());
}

#[test]
fn is_lowercase() {
    assert!(ch(b'a').is_lowercase());
    assert!(ch(b'z').is_lowercase());
    assert!(!ch(b'A').is_lowercase());
    assert!(!ch(b'Z').is_lowercase());
    assert!(!ch(b'0').is_lowercase());
    assert!(!ch(b'9').is_lowercase());
    assert!(!ch(b'_').is_lowercase());
    assert!(!ch(b'\0').is_lowercase());
}

#[test]
fn case_of_upper_range_letters() {
    assert!(ch(0xC6).is_uppercase());
    assert!(ch(0xE6).is_lowercase());
    assert!(ch(0xA6).is_uppercase());
    assert!(ch(0xA8).is_lowercase());
    assert!(ch(0xBE).is_uppercase());
    assert!(!ch(0xD7).is_uppercase());
    assert!(!ch(0xF7).is_lowercase());
    for byte in valid_bytes() {
        let c = ch(byte);
        assert!(!(c.is_uppercase() && c.is_lowercase()), "0x{byte:x}");
    }
}

#[test]
fn is_ascii_splits_at_0x7f() {
    assert!(ch(0x00).is_ascii());
    assert!(ch(0x7F).is_ascii());
    assert!(!ch(0xA0).is_ascii());
    assert!(!ch(0xFF).is_ascii());
}

#[test]
fn debug() {
    assert_eq!(ch(0x41).to_debug_string(), "'A'");
    assert_eq!(ch(0xC6).to_debug_string(), "'Æ'");
    assert_eq!(ch(0xA4).to_debug_string(), "'€'");
}

#[test]
fn display() {
    assert_eq!(ch(0x41).to_display_string(), "A");
    assert_eq!(ch(0xC6).to_display_string(), "Æ");
    assert_eq!(ch(0xBD).to_display_string(), "œ");
}

#[test]
fn lowerhex() {
    for byte in valid_bytes() {
        assert_eq!(ch(byte).to_lower_hex(), format!("{:02x}", byte));
    }
}

#[test]
fn upperhex() {
    for byte in valid_bytes() {
        assert_eq!(ch(byte).to_upper_hex(), format!("{:02X}", byte));
    }
}

#[test]
fn hex_values() {
    assert_eq!(ch(0x0A).to_lower_hex(), "0a");
    assert_eq!(ch(0x0A).to_upper_hex(), "0A");
    assert_eq!(ch(0xFE).to_lower_hex(), "fe");
    assert_eq!(ch(0xFE).to_upper_hex(), "FE");
}

#[test]
fn from_self_to_u8() {
    for byte in valid_bytes() {
        let c = ch(byte);
        assert_eq!(u8::from(c), byte);
        assert_eq!(c.to_byte(), byte);
    }
}

#[test]
fn from_self_to_char() {
    for byte in 0x00..=0x7Fu8 {
        assert_eq!(char::from(ch(byte)), byte as char);
    }
    assert_eq!(char::from(ch(0xA0)), '\u{A0}');
    assert_eq!(char::from(ch(0xA4)), '€');
    assert_eq!(char::from(ch(0xA6)), 'Š');
    assert_eq!(char::from(ch(0xA8)), 'š');
    assert_eq!(char::from(ch(0xB4)), 'Ž');
    assert_eq!(char::from(ch(0xB8)), 'ž');
    assert_eq!(char::from(ch(0xBC)), 'Œ');
    assert_eq!(char::from(ch(0xBD)), 'œ');
    assert_eq!(char::from(ch(0xBE)), 'Ÿ');
    assert_eq!(char::from(ch(0xC6)), 'Æ');
    assert_eq!(char::from(ch(0xFF)), 'ÿ');
}

#[test]
fn try_from_u8_to_self() {
    for byte in 0x00..=0x7F {
        assert!(IsoLatin9Char::try_from(byte).is_ok(), "0x{byte:x}");
    }

    for byte in 0x80..=0x9F {
        assert_eq!(
            IsoLatin9Char::try_from(byte),
            Err(IsoLatin9CharError::Undefined),
            "{byte:x}"
        );
    }

    for byte in 0xA0..=0xFF {
        assert!(IsoLatin9Char::try_from(byte).is_ok(), "0x{byte:x}");
    }
}

#[test]
fn try_from_char_to_self() {
    for char in '\u{00}'..='\u{7F}' {
        assert!(IsoLatin9Char::try_from(char).is_ok(), "{char}");
    }

    for char in '\u{80}'..='\u{9F}' {
        assert_eq!(
            IsoLatin9Char::try_from(char),
            Err(IsoLatin9CharError::Invalid),
            "{char}"
        );
    }

    assert_eq!(IsoLatin9Char::try_from('€').map(u8::from), Ok(0xA4));
    assert_eq!(IsoLatin9Char::try_from('Ÿ').map(u8::from), Ok(0xBE));
    assert_eq!(IsoLatin9Char::try_from('é').map(u8::from), Ok(0xE9));
    assert_eq!(IsoLatin9Char::try_from('\u{A4}'), Err(IsoLatin9CharError::Invalid));
    assert_eq!(IsoLatin9Char::try_from('\u{BC}'), Err(IsoLatin9CharError::Invalid));
    assert_eq!(IsoLatin9Char::try_from('Ā'), Err(IsoLatin9CharError::Invalid));
    assert_eq!(IsoLatin9Char::from_char('\u{100}'), Err(IsoLatin9CharError::Invalid));
}

#[test]
fn byte_char_byte_round_trip() {
    for byte in valid_bytes() {
        let c = char::from(ch(byte));
        assert_eq!(IsoLatin9Char::try_from(c).map(u8::from), Ok(byte), "0x{byte:x}");
    }
}

#[test]
fn from_byte_matches_try_from() {
    assert_eq!(IsoLatin9Char::from_byte(0x9F), Err(IsoLatin9CharError::Undefined));
    assert_eq!(IsoLatin9Char::from_byte(0xE9).map(|c| c.to_char()), Ok('é'));
}

#[test]
fn default_is_null() {
    assert_eq!(u8::from(IsoLatin9Char::default()), 0);
}
