use network_mapping::boundary::{to_owned_text, ConversionError};

#[test]
fn ascii_text_round_trips() {
    assert_eq!(to_owned_text(b"tcp\0"), Ok(String::from("tcp")));
}

#[test]
fn bytes_past_terminator_are_ignored() {
    assert_eq!(to_owned_text(b"dns\0\xff\xfe junk"), Ok(String::from("dns")));
}

#[test]
fn multibyte_text_round_trips() {
    let text = "h\u{e9}llo \u{4e16}\u{754c} \u{1f600}";
    let mut buf = text.as_bytes().to_vec();
    buf.push(0);
    assert_eq!(to_owned_text(&buf), Ok(String::from(text)));
}

#[test]
fn only_first_terminator_counts() {
    assert_eq!(to_owned_text(b"a\0b\0"), Ok(String::from("a")));
}

#[test]
fn empty_buffer_converts_to_empty_text() {
    assert_eq!(to_owned_text(b"\0"), Ok(String::new()));
    assert_eq!(to_owned_text(b"\0\xff"), Ok(String::new()));
}

#[test]
fn invalid_byte_is_rejected() {
    assert_eq!(to_owned_text(b"ab\xffcd\0"), Err(ConversionError::InvalidEncoding));
}

#[test]
fn truncated_sequence_is_rejected() {
    assert_eq!(to_owned_text(b"caf\xc3\0"), Err(ConversionError::InvalidEncoding));
}

#[test]
fn overlong_encoding_is_rejected() {
    assert_eq!(to_owned_text(b"\xc0\x80\0"), Err(ConversionError::InvalidEncoding));
}

#[test]
fn surrogate_encoding_is_rejected() {
    assert_eq!(to_owned_text(b"\xed\xa0\x80\0"), Err(ConversionError::InvalidEncoding));
}
