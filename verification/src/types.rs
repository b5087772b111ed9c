//! Typed domain values: account addresses, private keys and fixed-width
//! 32-byte big-endian quantities.

use vstd::prelude::*;

use crate::codec::{
    align_bytes, hex_decode, hex_decoded, is_hex_seq, spec_align, spec_trim_hex, trim_hex,
};
use crate::errors::Error;

verus! {

/// `hex_decoded` yields one byte per digit pair (rounding an odd tail away).
pub proof fn lemma_hex_decoded_len(s: Seq<char>)
    ensures
        hex_decoded(s).len() == s.len() as int / 2,
    decreases s.len(),
{
    if s.len() >= 2 {
        lemma_hex_decoded_len(s.skip(2));
    }
}

/// A 20-byte account address.
#[derive(Clone, Debug, PartialEq, Eq)]
pub struct Address {
    bytes: Vec<u8>,
}

/// A 32-byte private key, decoded from its hexadecimal form.
#[derive(Clone, Debug, PartialEq, Eq)]
pub struct PrivateKey {
    bytes: Vec<u8>,
}

/// Exactly 32 bytes, big-endian, zero-padded on the left.
#[derive(Clone, Debug, PartialEq, Eq)]
pub struct Value32 {
    bytes: Vec<u8>,
}

impl View for Address {
    type V = Seq<u8>;

    closed spec fn view(&self) -> Seq<u8> {
        self.bytes@
    }
}

impl View for PrivateKey {
    type V = Seq<u8>;

    closed spec fn view(&self) -> Seq<u8> {
        self.bytes@
    }
}

impl View for Value32 {
    type V = Seq<u8>;

    closed spec fn view(&self) -> Seq<u8> {
        self.bytes@
    }
}

/// The hexadecimal form of an address: a `0x` prefix and 40 lower-case digits.
pub open spec fn spec_address_str(a: Seq<u8>) -> Seq<char> {
    crate::codec::spec_0x_hex(a)
}

/// What decoding a fixed-width hexadecimal value must yield: the digit pairs
/// of the trimmed string when it has exactly `2 * width` hexadecimal digits,
/// the error naming what went wrong otherwise.
pub open spec fn fixed_hex_result(s: Seq<char>, width: int, r: Result<Seq<u8>, Error>) -> bool {
    let t = spec_trim_hex(s);
    match r {
        Ok(b) => is_hex_seq(t) && t.len() == 2 * width && b == hex_decoded(t),
        Err(e) => !(is_hex_seq(t) && t.len() == 2 * width) && e == (if is_hex_seq(t) && t.len()
            % 2 == 0 {
            Error::InvalidLength
        } else {
            Error::InvalidHex
        }),
    }
}

/// What `Address::from_str` must yield.
pub open spec fn address_result(s: Seq<char>, r: Result<Address, Error>) -> bool {
    fixed_hex_result(
        s,
        20,
        match r {
            Ok(a) => Ok(a@),
            Err(e) => Err(e),
        },
    )
}

/// What `PrivateKey::from_str` must yield.
pub open spec fn pk_result(s: Seq<char>, r: Result<PrivateKey, Error>) -> bool {
    fixed_hex_result(
        s,
        32,
        match r {
            Ok(k) => Ok(k@),
            Err(e) => Err(e),
        },
    )
}

impl Address {
    /// An address is exactly 20 bytes.
    pub open spec fn wf(&self) -> bool {
        self@.len() == 20
    }

    /// Decode an address from its hexadecimal form: an optional `0x` prefix
    /// followed by exactly 40 digits.
    pub fn from_str(s: &str) -> (r: Result<Address, Error>)
        ensures
            address_result(s@, r),
            r matches Ok(a) ==> a.wf(),
    {
        let t = trim_hex(s);
        proof {
            lemma_hex_decoded_len(t@);
        }
        match hex_decode(t) {
            None => Err(Error::InvalidHex),
            Some(v) => {
                if v.len() != 20 {
                    Err(Error::InvalidLength)
                } else {
                    Ok(Address { bytes: v })
                }
            },
        }
    }

    /// The borrowed raw bytes.
    pub fn bytes(&self) -> (r: &Vec<u8>)
        ensures
            r@ == self@,
    {
        &self.bytes
    }

    /// Render the address as `0x` followed by 40 lower-case hexadecimal
    /// digits.
    pub fn to_hex_string(&self) -> (r: String)
        ensures
            r@ == spec_address_str(self@),
    {
        crate::codec::to_0x_hex(self.bytes.as_slice())
    }
}

impl PrivateKey {
    /// A private key is exactly 32 bytes.
    pub open spec fn wf(&self) -> bool {
        self@.len() == 32
    }

    /// Decode a private key from its hexadecimal form: an optional `0x`
    /// prefix followed by exactly 64 digits.
    pub fn from_str(s: &str) -> (r: Result<PrivateKey, Error>)
        ensures
            pk_result(s@, r),
            r matches Ok(k) ==> k.wf(),
    {
        let t = trim_hex(s);
        proof {
            lemma_hex_decoded_len(t@);
        }
        match hex_decode(t) {
            None => Err(Error::InvalidHex),
            Some(v) => {
                if v.len() != 32 {
                    Err(Error::InvalidLength)
                } else {
                    Ok(PrivateKey { bytes: v })
                }
            },
        }
    }

    /// The borrowed raw bytes.
    pub fn bytes(&self) -> (r: &Vec<u8>)
        ensures
            r@ == self@,
    {
        &self.bytes
    }
}

/// Reinterpret a byte sequence of exactly 32 bytes as a fixed-width value,
/// failing on any other length.
pub fn to_arr(bytes: Vec<u8>) -> (r: Result<Value32, Error>)
    ensures
        match r {
            Ok(v) => bytes@.len() == 32 && v@ == bytes@ && v.wf(),
            Err(e) => e == Error::InvalidLength && bytes@.len() != 32,
        },
{
    if bytes.len() != 32 {
        Err(Error::InvalidLength)
    } else {
        Ok(Value32 { bytes })
    }
}

impl Value32 {
    /// A fixed-width value is exactly 32 bytes.
    pub open spec fn wf(&self) -> bool {
        self@.len() == 32
    }

    /// The borrowed raw bytes.
    pub fn bytes(&self) -> (r: &Vec<u8>)
        ensures
            r@ == self@,
    {
        &self.bytes
    }
}

/// What decoding a `Value32` from a hexadecimal string must yield: the
/// trimmed digits' bytes left-padded with zeros to 32 when they fit, the
/// error naming what went wrong otherwise.
pub open spec fn value32_result(s: Seq<char>, r: Result<Value32, Error>) -> bool {
    let t = spec_trim_hex(s);
    match r {
        Ok(v) => is_hex_seq(t) && t.len() % 2 == 0 && t.len() <= 64 && v@ == spec_align(
            hex_decoded(t),
            32,
        ),
        Err(e) => !(is_hex_seq(t) && t.len() % 2 == 0 && t.len() <= 64) && e == (if is_hex_seq(t)
            && t.len() % 2 == 0 {
            Error::InvalidLength
        } else {
            Error::InvalidHex
        }),
    }
}

/// Decode a hexadecimal string (optional `0x` prefix, at most 64 digits) into
/// exactly 32 bytes, zero-padded on the left.
pub(crate) fn hex_to_32bytes(s: &str) -> (r: Result<Value32, Error>)
    ensures
        value32_result(s@, r),
        r matches Ok(v) ==> v.wf(),
{
    let t = trim_hex(s);
    proof {
        lemma_hex_decoded_len(t@);
    }
    match hex_decode(t) {
        None => Err(Error::InvalidHex),
        Some(v) => {
            match align_bytes(&v, 32) {
                Err(e) => Err(e),
                Ok(a) => to_arr(a),
            }
        },
    }
}

} // verus!
