use emerald_cli::errors::Error;
use emerald_cli::types::{to_arr, Address, PrivateKey};

const ADDR: &str = "0x0e7c045110b8dbf29765047380898919c5cb56f4";

#[test]
fn address_decodes_prefixed_hex() {
    let a = Address::from_str(ADDR).unwrap();
    assert_eq!(a.bytes().len(), 20);
    assert_eq!(a.bytes()[0], 0x0e);
    assert_eq!(a.bytes()[19], 0xf4);
}

#[test]
fn address_decodes_without_prefix() {
    let a = Address::from_str("0e7c045110b8dbf29765047380898919c5cb56f4").unwrap();
    assert_eq!(a.bytes().len(), 20);
}

#[test]
fn address_round_trips_to_lowercase_hex() {
    let a = Address::from_str("0x0E7C045110B8DBF29765047380898919C5CB56F4").unwrap();
    assert_eq!(a.to_hex_string(), ADDR);
}

#[test]
fn address_rejects_bad_digits() {
    assert_eq!(
        Address::from_str("0xzz7c045110b8dbf29765047380898919c5cb56f4").unwrap_err(),
        Error::InvalidHex
    );
}

#[test]
fn address_rejects_wrong_length() {
    assert_eq!(Address::from_str("0x1234").unwrap_err(), Error::InvalidLength);
    assert_eq!(Address::from_str("0x123").unwrap_err(), Error::InvalidHex);
}

#[test]
fn private_key_decodes_64_digits() {
    let k =
        PrivateKey::from_str("0x00b413b37c71bfb92719d16e28d7329dea5befa0d0b8190742f89e55617991cf")
            .unwrap();
    assert_eq!(k.bytes().len(), 32);
    assert_eq!(k.bytes()[1], 0xb4);
}

#[test]
fn private_key_rejects_short_input() {
    assert_eq!(PrivateKey::from_str("0x00b413").unwrap_err(), Error::InvalidLength);
}

#[test]
fn to_arr_takes_exactly_32_bytes() {
    let v = to_arr(vec![7u8; 32]).unwrap();
    assert_eq!(v.bytes(), &vec![7u8; 32]);
}

#[test]
fn to_arr_rejects_other_widths() {
    assert_eq!(to_arr(vec![7u8; 31]).unwrap_err(), Error::InvalidLength);
    assert_eq!(to_arr(vec![7u8; 33]).unwrap_err(), Error::InvalidLength);
}
