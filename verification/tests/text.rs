use cedarwasm::{str_from_cstr, Error};

#[test]
fn test_str_from_cstr() {
    let cstr = b"hello\0";
    let s = str_from_cstr(cstr).unwrap();
    assert_eq!(s, "hello");
}

#[test]
fn test_str_from_cstr_error() {
    let cstr = b"Hello, \xF0\x28\x8C\xBC!\0";
    let s = str_from_cstr(cstr);
    assert!(s.is_err_and(|e| e.to_string().contains("invalid utf-8 input")));
}

#[test]
fn invalid_bytes_give_the_utf8_variant() {
    assert_eq!(str_from_cstr(b"\xF0\x28\x8C\xBC\0"), Err(Error::InvalidUtf8()));
    assert_eq!(str_from_cstr(b"\xFF\0"), Err(Error::InvalidUtf8()));
    assert_eq!(str_from_cstr(b"ok\x80\0"), Err(Error::InvalidUtf8()));
}

#[test]
fn truncated_multi_byte_sequence_is_rejected() {
    // The first two bytes of a three-byte sequence, then the terminator.
    assert_eq!(str_from_cstr(b"abc\xE2\x82\0"), Err(Error::InvalidUtf8()));
    // The first byte of a four-byte sequence.
    assert_eq!(str_from_cstr(b"\xF0\0"), Err(Error::InvalidUtf8()));
}

#[test]
fn text_stops_at_the_first_nul() {
    assert_eq!(str_from_cstr(b"hello\0world\0"), Ok("hello"));
    assert_eq!(str_from_cstr(b"a\0\0\0"), Ok("a"));
}

#[test]
fn bytes_after_the_terminator_are_not_examined() {
    assert_eq!(str_from_cstr(b"fine\0\xFF\xFE"), Ok("fine"));
}

#[test]
fn leading_nul_gives_empty_text() {
    assert_eq!(str_from_cstr(b"\0"), Ok(""));
    assert_eq!(str_from_cstr(b"\0rest"), Ok(""));
}

#[test]
fn empty_buffer_gives_empty_text() {
    assert_eq!(str_from_cstr(b""), Ok(""));
}

#[test]
fn buffer_without_terminator_is_read_to_its_end() {
    assert_eq!(str_from_cstr(b"hello"), Ok("hello"));
    assert_eq!(str_from_cstr(b"hi\xC3"), Err(Error::InvalidUtf8()));
}

#[test]
fn multi_byte_text_is_decoded() {
    let bytes = "h\u{e9}llo \u{20ac} \u{1f600}\0".as_bytes();
    assert_eq!(str_from_cstr(bytes), Ok("h\u{e9}llo \u{20ac} \u{1f600}"));
}

#[test]
fn text_borrows_from_the_buffer() {
    let buffer = b"hello\0".to_vec();
    let text = str_from_cstr(&buffer).unwrap();
    assert_eq!(text.as_ptr(), buffer.as_ptr());
    assert_eq!(text.len(), 5);
}

#[test]
fn overlong_and_surrogate_encodings_are_rejected() {
    assert_eq!(str_from_cstr(b"\xC0\x80\0"), Err(Error::InvalidUtf8()));
    assert_eq!(str_from_cstr(b"\xED\xA0\x80\0"), Err(Error::InvalidUtf8()));
}
