use com_terminal::hex::{bytes_to_hex, hex_decode_splits_char, hex_to_bytes};
use com_terminal::hex_utils;

#[test]
fn dump_of_no_bytes_is_empty() {
    assert_eq!(bytes_to_hex(&[]), "");
}

#[test]
fn dump_uses_two_upper_case_digits_and_single_spaces() {
    assert_eq!(bytes_to_hex(&[0x0A, 0xFF]), "0A FF");
    assert_eq!(bytes_to_hex(&[0x00]), "00");
    assert_eq!(bytes_to_hex(&[0x01, 0x2B, 0xC3]), "01 2B C3");
}

#[test]
fn dump_length_is_three_per_byte_minus_one() {
    let bytes: Vec<u8> = (0..=255u8).collect();
    assert_eq!(bytes_to_hex(&bytes).len(), 3 * 256 - 1);
}

#[test]
fn decode_reads_pairs_in_either_case() {
    assert_eq!(hex_to_bytes("0a ff"), Ok(vec![0x0A, 0xFF]));
    assert_eq!(hex_to_bytes("0AfF"), Ok(vec![0x0A, 0xFF]));
    assert_eq!(hex_to_bytes("DEADbeef"), Ok(vec![0xDE, 0xAD, 0xBE, 0xEF]));
}

#[test]
fn decode_of_empty_or_blank_text_is_empty() {
    assert_eq!(hex_to_bytes(""), Ok(vec![]));
    assert_eq!(hex_to_bytes(" \t\n "), Ok(vec![]));
}

#[test]
fn decode_ignores_all_unicode_white_space() {
    assert_eq!(hex_to_bytes(" 0 a\tf\nf\r"), Ok(vec![0x0A, 0xFF]));
    assert_eq!(hex_to_bytes("0\u{3000}A\u{00A0}F\u{2028}F\u{85}"), Ok(vec![0x0A, 0xFF]));
}

#[test]
fn decode_reports_odd_length() {
    assert_eq!(hex_to_bytes("abc"), Err("Odd length".to_string()));
    assert_eq!(hex_to_bytes("a"), Err("Odd length".to_string()));
    // one three-byte character: odd number of bytes
    assert_eq!(hex_to_bytes("\u{20AC}"), Err("Odd length".to_string()));
}

#[test]
fn decode_reports_invalid_digits() {
    let bad = Err("invalid digit found in string".to_string());
    assert_eq!(hex_to_bytes("zz"), bad);
    assert_eq!(hex_to_bytes("0g"), bad);
    assert_eq!(hex_to_bytes("-1"), bad);
    assert_eq!(hex_to_bytes("f+"), bad);
    assert_eq!(hex_to_bytes("++"), bad);
    // a two-byte character fills a whole window and is no digit
    assert_eq!(hex_to_bytes("\u{e9}"), bad);
    // the first bad pair decides, later pairs are not looked at
    assert_eq!(hex_to_bytes("00zz\u{e9}"), bad);
}

#[test]
fn decode_accepts_a_leading_plus_in_a_pair() {
    assert_eq!(hex_to_bytes("+f"), Ok(vec![0x0F]));
    assert_eq!(hex_to_bytes("10+1"), Ok(vec![0x10, 0x01]));
}

#[test]
fn windows_that_split_a_character_are_detected() {
    assert!(hex_decode_splits_char("a\u{e9}1"));
    assert!(hex_decode_splits_char("\u{20AC}a"));
    assert!(!hex_decode_splits_char("0a ff"));
    assert!(!hex_decode_splits_char("\u{e9}"));
    assert!(!hex_decode_splits_char("abc"));
    assert!(!hex_decode_splits_char("zz\u{20AC}a"));
}

#[test]
fn hex_round_trip_law_on_values() {
    let samples: Vec<Vec<u8>> = vec![
        vec![],
        vec![0],
        vec![0xFF],
        vec![1, 2, 3, 250],
        (0..=255u8).collect(),
    ];
    for s in samples {
        assert_eq!(hex_to_bytes(&bytes_to_hex(&s)), Ok(s.clone()));
        assert_eq!(hex_utils::hex_to_bytes(&hex_utils::bytes_to_hex(&s)), Ok(s));
    }
}

#[test]
fn white_space_law_on_values() {
    assert_eq!(hex_to_bytes("4 1\t4\n2"), hex_to_bytes("4142"));
    assert_eq!(hex_to_bytes("4 1 4"), hex_to_bytes("414"));
}

#[test]
fn hex_mode_helpers_word_the_odd_length_error_differently() {
    assert_eq!(
        hex_utils::hex_to_bytes("abc"),
        Err("Hex string must have even length".to_string())
    );
    assert_eq!(
        hex_utils::hex_to_bytes("xy"),
        Err("invalid digit found in string".to_string())
    );
    assert_eq!(hex_utils::hex_to_bytes("01 02"), Ok(vec![1, 2]));
    assert_eq!(hex_utils::bytes_to_hex(&[0xAB, 0x01]), "AB 01");
}
