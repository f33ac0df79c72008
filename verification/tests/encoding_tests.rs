use proof_of_work::encoding::{
    hex_digit_at, hex_digit_of, hex_encode, push_ascii, push_decimal, push_decimal_text,
};

fn numeral(n: u128) -> Vec<u8> {
    let mut out = Vec::new();
    push_decimal(&mut out, n);
    out
}

#[test]
fn push_decimal_writes_plain_numerals() {
    assert_eq!(numeral(0), b"0".to_vec());
    assert_eq!(numeral(7), b"7".to_vec());
    assert_eq!(numeral(10), b"10".to_vec());
    assert_eq!(numeral(3361), b"3361".to_vec());
    assert_eq!(numeral(1_700_000_000), b"1700000000".to_vec());
    assert_eq!(numeral(u64::MAX as u128), b"18446744073709551615".to_vec());
    assert_eq!(numeral(u128::MAX), b"340282366920938463463374607431768211455".to_vec());
}

#[test]
fn push_decimal_appends_to_what_is_there() {
    let mut out = b"abc".to_vec();
    push_decimal(&mut out, 120);
    push_decimal(&mut out, 0);
    assert_eq!(out, b"abc1200".to_vec());
}

#[test]
fn push_decimal_agrees_with_the_standard_numeral() {
    for n in [1u128, 9, 11, 99, 100, 101, 12345, 4294967296, 999999999999999999] {
        assert_eq!(numeral(n), n.to_string().into_bytes());
    }
}

#[test]
fn push_decimal_text_appends_the_numeral() {
    let mut text = String::from("n=");
    push_decimal_text(&mut text, 42);
    assert_eq!(text, "n=42");
    push_decimal_text(&mut text, 0);
    assert_eq!(text, "n=420");
}

#[test]
fn push_ascii_appends_one_character_per_code() {
    let mut text = String::from(">");
    push_ascii(&mut text, b"0aZ~");
    assert_eq!(text, ">0aZ~");
    push_ascii(&mut text, &[]);
    assert_eq!(text, ">0aZ~");
}

#[test]
fn hex_digits_are_lowercase() {
    let digits: Vec<char> = (0u8..16).map(hex_digit_of).collect();
    assert_eq!(digits, "0123456789abcdef".chars().collect::<Vec<char>>());
}

#[test]
fn hex_encode_writes_two_digits_per_byte() {
    assert_eq!(hex_encode(&[]), "");
    assert_eq!(hex_encode(&[0]), "00");
    assert_eq!(hex_encode(&[0x0a]), "0a");
    assert_eq!(hex_encode(&[0xa0]), "a0");
    assert_eq!(hex_encode(&[0x00, 0xff, 0xab, 0x10, 0x01]), "00ffab1001");
    assert_eq!(hex_encode(&[0xde, 0xad, 0xbe, 0xef]), "deadbeef");
}

#[test]
fn hex_digit_at_reads_the_high_half_first() {
    let bytes = [0x1f, 0xa2];
    let digits: Vec<char> = (0..4).map(|k| hex_digit_at(&bytes, k)).collect();
    assert_eq!(digits, vec!['1', 'f', 'a', '2']);
}
