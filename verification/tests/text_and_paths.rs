//! Rendering, parsing and object-path checks.

use gatt_server::objpath::{is_valid_object_path, parent_path};
use gatt_server::text::{format_decimal, format_two_digit, parse_hex_u64};
use gatt_server::uuidfmt::{format_uuid_hyphenated, format_uuid_simple, uuid_be_bytes};

#[test]
fn decimal_rendering() {
    assert_eq!(format_decimal(0), "0");
    assert_eq!(format_decimal(7), "7");
    assert_eq!(format_decimal(10), "10");
    assert_eq!(format_decimal(42), "42");
    assert_eq!(format_decimal(65535), "65535");
}

#[test]
fn two_digit_rendering() {
    assert_eq!(format_two_digit(0), "00");
    assert_eq!(format_two_digit(5), "05");
    assert_eq!(format_two_digit(12), "12");
    assert_eq!(format_two_digit(255), "255");
}

#[test]
fn hex_token_parsing() {
    assert_eq!(parse_hex_u64("0"), Some(0));
    assert_eq!(parse_hex_u64("1a2b"), Some(0x1a2b));
    assert_eq!(parse_hex_u64("FF"), Some(255));
    assert_eq!(parse_hex_u64("+ff"), Some(255));
    assert_eq!(parse_hex_u64("ffffffffffffffff"), Some(u64::MAX));
    assert_eq!(parse_hex_u64(""), None);
    assert_eq!(parse_hex_u64("+"), None);
    assert_eq!(parse_hex_u64("xyz"), None);
    assert_eq!(parse_hex_u64("12 34"), None);
    assert_eq!(parse_hex_u64("10000000000000000"), None);
}

#[test]
fn decimal_rendering_largest() {
    assert_eq!(format_decimal(u64::MAX), "18446744073709551615");
}

#[test]
fn uuid_rendering() {
    let u: u128 = 0x0000180d_0000_1000_8000_00805f9b34fb;
    assert_eq!(format_uuid_hyphenated(u), "0000180d-0000-1000-8000-00805f9b34fb");
    assert_eq!(format_uuid_simple(u), "0000180d00001000800000805f9b34fb");
    assert_eq!(format_uuid_hyphenated(0), "00000000-0000-0000-0000-000000000000");
    assert_eq!(
        format_uuid_hyphenated(u128::MAX),
        "ffffffff-ffff-ffff-ffff-ffffffffffff"
    );
}

#[test]
fn uuid_bytes_are_big_endian() {
    let u: u128 = 0x0000180d_0000_1000_8000_00805f9b34fb;
    assert_eq!(
        uuid_be_bytes(u),
        vec![
            0x00, 0x00, 0x18, 0x0d, 0x00, 0x00, 0x10, 0x00, 0x80, 0x00, 0x00, 0x80, 0x5f, 0x9b,
            0x34, 0xfb
        ]
    );
}

#[test]
fn object_path_grammar() {
    assert!(is_valid_object_path("/"));
    assert!(is_valid_object_path("/a"));
    assert!(is_valid_object_path("/a/b_C9"));
    assert!(is_valid_object_path("/example"));
    assert!(!is_valid_object_path(""));
    assert!(!is_valid_object_path("a"));
    assert!(!is_valid_object_path("/a/"));
    assert!(!is_valid_object_path("/a//b"));
    assert!(!is_valid_object_path("/a-b"));
    assert!(!is_valid_object_path("/a b"));
}

#[test]
fn parent_paths() {
    assert_eq!(parent_path("/a/b"), "/a");
    assert_eq!(parent_path("/a/b/c"), "/a/b");
    assert_eq!(parent_path("/a"), "/");
    assert_eq!(parent_path("/app0/service0/char0"), "/app0/service0");
}
