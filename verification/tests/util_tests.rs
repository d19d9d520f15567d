use libc::c_char;
use n2n::util::error::N2NError;
use n2n::util::CopyFromU8Slice;
use n2n::util::ToString as _;

#[test]
fn copy_into_longer_buffer_pads_with_zeros() {
    let mut buf: [c_char; 6] = [7; 6];
    let r = buf[..].copy_from_u8_slice(b"abc");
    assert_eq!(r, Ok(()));
    assert_eq!(buf, [97, 98, 99, 0, 0, 0]);
}

#[test]
fn copy_into_equal_buffer_leaves_it_unchanged() {
    let mut buf: [c_char; 3] = [7; 3];
    let r = buf[..].copy_from_u8_slice(b"abc");
    assert_eq!(r, Ok(()));
    assert_eq!(buf, [7, 7, 7]);
}

#[test]
fn copy_into_shorter_buffer_fails() {
    let mut buf: [c_char; 2] = [7; 2];
    let r = buf[..].copy_from_u8_slice(b"abc");
    assert_eq!(r, Err(N2NError::CCharLenTooLong(2, 3)));
    assert_eq!(buf, [7, 7]);
}

#[test]
fn copy_high_bytes_as_c_chars() {
    let mut buf: [c_char; 3] = [7; 3];
    let r = buf[..].copy_from_u8_slice(&[0xff, 0x80]);
    assert_eq!(r, Ok(()));
    assert_eq!(buf, [-1, -128, 0]);
}

#[test]
fn read_c_string_stops_at_first_nul() {
    let buf: [c_char; 6] = [104, 105, 0, 120, 0, 121];
    assert_eq!(buf[..].to_string(), "hi");
}

#[test]
fn read_empty_c_string() {
    let buf: [c_char; 2] = [0, 65];
    assert_eq!(buf[..].to_string(), "");
}

#[test]
fn read_invalid_utf8_replaces_it() {
    let buf: [c_char; 3] = [97, -1, 0];
    assert_eq!(buf[..].to_string(), "a\u{FFFD}");
}

#[test]
fn read_multibyte_utf8() {
    let bytes = "é".as_bytes();
    let buf: [c_char; 3] = [bytes[0] as c_char, bytes[1] as c_char, 0];
    assert_eq!(buf[..].to_string(), "é");
}

#[test]
fn copy_then_read_gives_back_the_slice() {
    let mut buf: [c_char; 8] = [5; 8];
    buf[..].copy_from_u8_slice(b"edge0").unwrap();
    assert_eq!(buf[..].to_string(), "edge0");
}

#[test]
fn copy_then_read_stops_at_embedded_zero() {
    let mut buf: [c_char; 8] = [5; 8];
    buf[..].copy_from_u8_slice(b"ab\0cd").unwrap();
    assert_eq!(buf[..].to_string(), "ab");
}

#[test]
fn copy_error_message() {
    let mut buf: [c_char; 2] = [7; 2];
    let e = buf[..].copy_from_u8_slice(b"abcd").unwrap_err();
    assert_eq!(e.message(), "c_char length 2 shorter than slice length 4");
}
