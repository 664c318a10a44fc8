use wemove::hex::hash_to_hex;
use wemove::text::{contains_text, parse_u64, str_eq};

#[test]
fn hash_to_hex_renders_two_lowercase_digits_per_byte() {
    assert_eq!(hash_to_hex(&[]), "");
    assert_eq!(hash_to_hex(&[0x00]), "00");
    assert_eq!(hash_to_hex(&[0x0f, 0xa0, 0xff, 0x12]), "0fa0ff12");
    assert_eq!(hash_to_hex(&[0xde, 0xad, 0xbe, 0xef]), "deadbeef");
}

#[test]
fn hash_to_hex_matches_format() {
    let bytes: Vec<u8> = (0u8..=255).collect();
    let expected: String = bytes.iter().map(|b| format!("{:02x}", b)).collect();
    assert_eq!(hash_to_hex(&bytes), expected);
}

#[test]
fn parse_u64_follows_std() {
    for s in ["0", "42", "+7", "007", "18446744073709551615", "", "+", "-1", " 1", "1 ", "18446744073709551616", "12a", "٣"] {
        assert_eq!(parse_u64(s), s.parse::<u64>().ok(), "input {:?}", s);
    }
}

#[test]
fn text_search_and_equality() {
    assert!(contains_text("UNIQUE constraint failed: users.email", "UNIQUE constraint"));
    assert!(!contains_text("unique constraint", "UNIQUE constraint"));
    assert!(contains_text("abc", ""));
    assert!(!contains_text("ab", "abc"));
    assert!(str_eq("äb", "äb"));
    assert!(!str_eq("ab", "abc"));
    assert!(!str_eq("ab", "ac"));
}
