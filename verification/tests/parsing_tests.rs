use oil::parsing::{CharReadError, next_char_from};

#[test]
fn test_next_char_empty() {
    assert_eq!(next_char_from(b""), Ok(None));
}

#[test]
fn test_next_char_ascii() {
    assert_eq!(next_char_from(b"abc"), Ok(Some('a')));
}

#[test]
fn test_next_char_multibyte() {
    // Two-, three- and four-byte encodings decode to their characters.
    let two = "é rest".as_bytes();
    assert_eq!(next_char_from(two), Ok(Some('é')));
    let three = "€x".as_bytes();
    assert_eq!(next_char_from(three), Ok(Some('€')));
    let four = "𝄞y".as_bytes();
    assert_eq!(next_char_from(four), Ok(Some('𝄞')));
}

#[test]
fn test_next_char_incomplete() {
    // A leading byte whose continuation bytes end too early is an
    // unexpected end of input.
    let e_acute = "é".as_bytes();
    assert_eq!(next_char_from(&e_acute[..1]), Err(CharReadError::UnexpectedEof));
    let clef = "𝄞".as_bytes();
    assert_eq!(next_char_from(&clef[..2]), Err(CharReadError::UnexpectedEof));
}

#[test]
fn test_next_char_invalid() {
    // A stray continuation byte, an impossible leading byte, an overlong
    // encoding and a surrogate all fail as encoding errors.
    assert_eq!(next_char_from(&[0x80]), Err(CharReadError::Utf8));
    assert_eq!(next_char_from(&[0xff, 0x80]), Err(CharReadError::Utf8));
    assert_eq!(next_char_from(&[0xc0, 0x80]), Err(CharReadError::Utf8));
    assert_eq!(next_char_from(&[0xed, 0xa0, 0x80]), Err(CharReadError::Utf8));
}
