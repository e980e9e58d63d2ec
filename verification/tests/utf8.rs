use ffi_types::{CharStrRef, SliceInner, StrRef};
use std::str::Utf8Error;

#[test]
fn into_rust_takes_hi() {
    let bytes = CharStrRef::new(&[0x68, 0x69]);
    let text = bytes.into_rust().unwrap();
    assert_eq!(text.as_str(), "hi");
}

#[test]
fn into_rust_refuses_ff_fe_at_offset_zero() {
    let bytes = CharStrRef::new(&[0xFF, 0xFE]);
    let error = bytes.into_rust().err().unwrap();
    assert_eq!(error.valid_up_to(), 0);
    // the bytes are still there to be read
    assert_eq!(bytes.as_bytes(), &[0xFF, 0xFE]);
    assert_eq!(bytes.into_slice(), &[0xFF, 0xFE]);
}

#[test]
fn into_rust_keeps_the_place_of_the_bytes() {
    let data: &'static [u8] = b"same place";
    let text = CharStrRef::new(data).into_rust().unwrap();
    assert_eq!(text.inner().ptr, SliceInner::from_slice(data).ptr);
    assert_eq!(text.inner().len, data.len());
}

#[test]
fn into_rust_reports_where_the_bytes_stop_being_utf8() {
    // "a" and the first two bytes of a three-byte character
    let cut_short = CharStrRef::new(&[0x61, 0xE2, 0x82]);
    assert_eq!(cut_short.into_rust().err().unwrap().valid_up_to(), 1);
    // "héllo" and a byte that never occurs in UTF-8
    let bad_end = CharStrRef::new(&[0x68, 0xC3, 0xA9, 0x6C, 0x6C, 0x6F, 0xFF]);
    assert_eq!(bad_end.into_rust().err().unwrap().valid_up_to(), 6);
    // a surrogate, encoded as if it were a character
    let surrogate = CharStrRef::new(&[0x61, 0x62, 0xED, 0xA0, 0x80]);
    assert_eq!(surrogate.into_rust().err().unwrap().valid_up_to(), 2);
    // "/" in two bytes where one is enough
    let overlong = CharStrRef::new(&[0xC0, 0xAF]);
    assert_eq!(overlong.into_rust().err().unwrap().valid_up_to(), 0);
}

#[test]
fn into_rust_takes_every_length_of_character() {
    let bytes = CharStrRef::new(&[0x24, 0xC2, 0xA3, 0xE2, 0x82, 0xAC, 0xF0, 0x9F, 0x98, 0x80]);
    assert_eq!(bytes.into_rust().unwrap().as_str(), "$£€😀");
}

#[test]
fn into_rust_takes_no_bytes_as_empty_text() {
    let bytes = CharStrRef::new(&[]);
    assert_eq!(bytes.into_rust().unwrap().as_str(), "");
}

#[test]
fn to_str_borrows_the_text() {
    let bytes = CharStrRef::new(b"borrowed");
    assert_eq!(bytes.to_str(), Ok("borrowed"));
    assert_eq!(bytes.as_bytes(), b"borrowed");
}

#[test]
fn to_str_refuses_what_is_not_utf8() {
    let bytes = CharStrRef::new(&[0x6F, 0x6B, 0x80]);
    let error: Utf8Error = bytes.to_str().unwrap_err();
    assert_eq!(error.valid_up_to(), 2);
    assert_eq!(error, error.clone());
}

#[test]
fn unwrap_str_and_expect_str_give_the_text() {
    let bytes = CharStrRef::new("naïve".as_bytes());
    assert_eq!(bytes.unwrap_str(), "naïve");
    assert_eq!(bytes.expect_str("the bytes were written as text"), "naïve");
}

#[test]
fn into_rust_unchecked_gives_the_text() {
    let bytes = CharStrRef::new("trusted €".as_bytes());
    let text = bytes.into_rust_unchecked();
    assert_eq!(text.as_str(), "trusted €");
    assert_eq!(text.inner().ptr, bytes.inner().ptr);
}

#[test]
fn char_str_ref_from_str_ref_holds_its_bytes() {
    let text = StrRef::new("añb");
    let bytes = CharStrRef::from(text);
    assert_eq!(bytes.as_bytes(), &[0x61, 0xC3, 0xB1, 0x62]);
    assert_eq!(bytes.inner().ptr, text.inner().ptr);
    assert_eq!(bytes.into_rust().unwrap().as_str(), "añb");
}
