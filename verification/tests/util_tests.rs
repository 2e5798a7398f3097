//! Tests of the small string helpers.

use upfind::util;
use upfind::util::LastPart;

#[test]
fn last_part_test() {
    assert_eq!("".last_part(), "");
    assert_eq!("/".last_part(), "");
    assert_eq!("/a".last_part(), "a");
    assert_eq!("a/b".last_part(), "b");
}

#[test]
fn last_last_two_parts_test() {
    assert_eq!("".last_two_parts(), "");
    assert_eq!("/".last_two_parts(), "/");
    assert_eq!("/a".last_two_parts(), "/a");
    assert_eq!("a/b".last_two_parts(), "a/b");
    assert_eq!("/a/b".last_two_parts(), "a/b");
    assert_eq!("c/a/b".last_two_parts(), "a/b");
}

#[test]
fn last_part_of_reference_names() {
    assert_eq!("refs/heads/main".last_part(), "main");
    assert_eq!("refs/heads/feature/x".last_part(), "x");
    assert_eq!("HEAD".last_part(), "HEAD");
}

#[test]
fn hex_of_leading_bytes() {
    let bytes: Vec<u8> = vec![0xde, 0xad, 0xbe, 0xef, 0x00, 0x12];
    assert_eq!(util::bytes_to_hex(&bytes, 4), "deadbeef");
    assert_eq!(util::bytes_to_hex(&bytes, 6), "deadbeef0012");
    assert_eq!(util::bytes_to_hex(&bytes, 0), "");
}

#[test]
fn hex_uses_lowercase_digits() {
    let bytes: Vec<u8> = vec![0x0f, 0xa0, 0xff, 0x10];
    assert_eq!(util::bytes_to_hex(&bytes, 4), "0fa0ff10");
}

#[test]
fn decimal_of_bytes() {
    assert_eq!(util::u8_to_dec(0), "0");
    assert_eq!(util::u8_to_dec(7), "7");
    assert_eq!(util::u8_to_dec(10), "10");
    assert_eq!(util::u8_to_dec(42), "42");
    assert_eq!(util::u8_to_dec(100), "100");
    assert_eq!(util::u8_to_dec(137), "137");
    assert_eq!(util::u8_to_dec(255), "255");
}
