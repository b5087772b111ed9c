use emerald_cli::codec::{align_bytes, parse_u64_dec, parse_u64_hex, to_0x_hex, trim_hex};
use emerald_cli::errors::Error;

#[test]
fn trim_hex_strips_lowercase_prefix() {
    assert_eq!(trim_hex("0xAB"), "AB");
}

#[test]
fn trim_hex_strips_uppercase_prefix() {
    assert_eq!(trim_hex("0XAB"), "AB");
}

#[test]
fn trim_hex_leaves_bare_digits() {
    assert_eq!(trim_hex("AB"), "AB");
}

#[test]
fn trim_hex_same_result_with_and_without_prefix() {
    assert_eq!(trim_hex("0xAB"), trim_hex("AB"));
    assert_eq!(trim_hex("0xAB"), trim_hex("0XAB"));
}

#[test]
fn trim_hex_strips_only_one_prefix() {
    assert_eq!(trim_hex("0x0xAB"), "0xAB");
}

#[test]
fn trim_hex_empty_and_short() {
    assert_eq!(trim_hex(""), "");
    assert_eq!(trim_hex("0"), "0");
    assert_eq!(trim_hex("0x"), "");
}

#[test]
fn align_bytes_pads_on_the_left() {
    let out = align_bytes(&vec![0x01, 0x02], 32).unwrap();
    let mut expected = vec![0u8; 30];
    expected.extend_from_slice(&[0x01, 0x02]);
    assert_eq!(out, expected);
}

#[test]
fn align_bytes_keeps_exact_width() {
    let input: Vec<u8> = (0..32).collect();
    assert_eq!(align_bytes(&input, 32).unwrap(), input);
}

#[test]
fn align_bytes_pads_empty_input() {
    assert_eq!(align_bytes(&Vec::new(), 32).unwrap(), vec![0u8; 32]);
}

#[test]
fn align_bytes_rejects_oversize_input() {
    let input = vec![0u8; 33];
    assert_eq!(align_bytes(&input, 32), Err(Error::InvalidLength));
}

#[test]
fn parse_u64_dec_reads_digits() {
    assert_eq!(parse_u64_dec("21000"), Ok(21000));
    assert_eq!(parse_u64_dec("0"), Ok(0));
}

#[test]
fn parse_u64_dec_reads_the_largest_value() {
    assert_eq!(parse_u64_dec("18446744073709551615"), Ok(u64::MAX));
}

#[test]
fn parse_u64_dec_rejects_overflow() {
    assert_eq!(parse_u64_dec("18446744073709551616"), Err(Error::InvalidNumber));
}

#[test]
fn parse_u64_dec_rejects_empty_and_non_numeric() {
    assert_eq!(parse_u64_dec(""), Err(Error::InvalidNumber));
    assert_eq!(parse_u64_dec("12a"), Err(Error::InvalidNumber));
    assert_eq!(parse_u64_dec("-1"), Err(Error::InvalidNumber));
}

#[test]
fn parse_u64_hex_reads_digits() {
    assert_eq!(parse_u64_hex("2a"), Ok(42));
    assert_eq!(parse_u64_hex("FF"), Ok(255));
    assert_eq!(parse_u64_hex("ffffffffffffffff"), Ok(u64::MAX));
}

#[test]
fn parse_u64_hex_rejects_overflow_and_junk() {
    assert_eq!(parse_u64_hex("10000000000000000"), Err(Error::InvalidNumber));
    assert_eq!(parse_u64_hex(""), Err(Error::InvalidNumber));
    assert_eq!(parse_u64_hex("xyz"), Err(Error::InvalidNumber));
}

#[test]
fn to_0x_hex_renders_lowercase_pairs() {
    assert_eq!(to_0x_hex(&[0xde, 0xad]), "0xdead");
    assert_eq!(to_0x_hex(&[]), "0x");
    assert_eq!(to_0x_hex(&[0x00, 0x0f]), "0x000f");
}
