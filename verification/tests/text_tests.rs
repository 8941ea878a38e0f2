//! Text helpers: decimal and hex rendering, suffix tests.

use comet::text::{bytes_to_hex, ends_with_str, u16_to_decimal, u32_to_decimal, u64_to_decimal};

#[test]
fn decimal_rendering_matches_expected_values() {
    assert_eq!(u16_to_decimal(0), "0");
    assert_eq!(u16_to_decimal(7), "7");
    assert_eq!(u16_to_decimal(10), "10");
    assert_eq!(u16_to_decimal(6969), "6969");
    assert_eq!(u16_to_decimal(65535), "65535");
    assert_eq!(u32_to_decimal(4294967295), "4294967295");
    assert_eq!(u64_to_decimal(18446744073709551615), "18446744073709551615");
    assert_eq!(u64_to_decimal(1000), "1000");
}

#[test]
fn hex_rendering_uses_two_lowercase_digits_per_byte() {
    assert_eq!(bytes_to_hex(&vec![]), "");
    assert_eq!(bytes_to_hex(&vec![0x00]), "00");
    assert_eq!(bytes_to_hex(&vec![0xff]), "ff");
    assert_eq!(bytes_to_hex(&vec![0x00, 0xff, 0x1a]), "00ff1a");
    assert_eq!(bytes_to_hex(&vec![0xde, 0xad, 0xbe, 0xef]), "deadbeef");
}

#[test]
fn suffix_test_compares_characters() {
    assert!(ends_with_str("script.lua", ".lua"));
    assert!(ends_with_str(".lua", ".lua"));
    assert!(!ends_with_str("lua", ".lua"));
    assert!(!ends_with_str("", ".lua"));
    assert!(ends_with_str("anything", ""));
    assert!(!ends_with_str("script.luaX", ".lua"));
}
