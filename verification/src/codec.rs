//! Byte/hex codec: prefix trimming, hex encoding and decoding, left
//! zero-padding to a fixed width, and unsigned-integer parsing.

use vstd::prelude::*;

use crate::errors::Error;

verus! {

/// A hexadecimal digit in either case.
pub open spec fn is_hex_digit(c: char) -> bool {
    ('0' <= c && c <= '9') || ('a' <= c && c <= 'f') || ('A' <= c && c <= 'F')
}

/// Numeric value of a hexadecimal digit.
pub open spec fn hex_digit_value(c: char) -> int {
    if '0' <= c && c <= '9' {
        c as int - '0' as int
    } else if 'a' <= c && c <= 'f' {
        c as int - 'a' as int + 10
    } else {
        c as int - 'A' as int + 10
    }
}

/// Every character of `s` is a hexadecimal digit.
pub open spec fn is_hex_seq(s: Seq<char>) -> bool {
    forall|i: int| 0 <= i < s.len() ==> is_hex_digit(#[trigger] s[i])
}

/// Bytes denoted by an even-length sequence of hexadecimal digits,
/// two digits per byte, most significant digit first.
pub open spec fn hex_decoded(s: Seq<char>) -> Seq<u8>
    decreases s.len(),
{
    if s.len() < 2 {
        seq![]
    } else {
        seq![(hex_digit_value(s[0]) * 16 + hex_digit_value(s[1])) as u8] + hex_decoded(
            s.skip(2),
        )
    }
}

/// The lower-case hexadecimal digit for a value below 16.
pub open spec fn hex_char_of(n: int) -> char {
    if n < 10 {
        (('0' as int + n) as u8) as char
    } else {
        (('a' as int + (n - 10)) as u8) as char
    }
}

/// Lower-case hexadecimal rendering of a byte sequence, two digits per byte.
pub open spec fn hex_encoded(b: Seq<u8>) -> Seq<char>
    decreases b.len(),
{
    if b.len() == 0 {
        seq![]
    } else {
        seq![hex_char_of(b[0] as int / 16), hex_char_of(b[0] as int % 16)] + hex_encoded(b.skip(1))
    }
}

/// `s` with one leading case-insensitive `0x` prefix removed, if present.
pub open spec fn spec_trim_hex(s: Seq<char>) -> Seq<char> {
    if s.len() >= 2 && s[0] == '0' && (s[1] == 'x' || s[1] == 'X') {
        s.skip(2)
    } else {
        s
    }
}

/// Strip one optional case-insensitive `0x` prefix; the remaining digits are
/// left unvalidated.
pub fn trim_hex(s: &str) -> (r: &str)
    ensures
        r@ == spec_trim_hex(s@),
{
    let n = s.unicode_len();
    if n >= 2 {
        let c0 = s.get_char(0);
        let c1 = s.get_char(1);
        if c0 == '0' && (c1 == 'x' || c1 == 'X') {
            let r = s.substring_char(2, n);
            assert(r@ =~= spec_trim_hex(s@));
            return r;
        }
    }
    assert(s@ =~= spec_trim_hex(s@));
    s
}

/// Relies on `hex::decode`: it succeeds exactly on even-length strings of
/// hexadecimal digits (either case) and yields one byte per digit pair, most
/// significant digit first.
#[verifier::external_body]
pub(crate) fn hex_decode(s: &str) -> (r: Option<Vec<u8>>)
    ensures
        r is Some <==> (is_hex_seq(s@) && s@.len() % 2 == 0),
        r is Some ==> r->0@ == hex_decoded(s@),
{
    hex::decode(s).ok()
}

/// Relies on `rustc_serialize::hex::ToHex`: it renders each byte as two
/// lower-case hexadecimal digits, most significant digit first.
#[verifier::external_body]
pub(crate) fn bytes_to_hex(b: &[u8]) -> (r: String)
    ensures
        r@ == hex_encoded(b@),
{
    rustc_serialize::hex::ToHex::to_hex(b)
}

/// The `0x`-prefixed lower-case hexadecimal rendering of a byte sequence.
pub open spec fn spec_0x_hex(b: Seq<u8>) -> Seq<char> {
    seq!['0', 'x'] + hex_encoded(b)
}

/// Render bytes as `0x` followed by two lower-case digits per byte.
pub fn to_0x_hex(b: &[u8]) -> (r: String)
    ensures
        r@ == spec_0x_hex(b@),
{
    let mut out = String::from_str("0x");
    let digits = bytes_to_hex(b);
    out.append(digits.as_str());
    proof {
        reveal_strlit("0x");
        assert(out@ =~= spec_0x_hex(b@));
    }
    out
}

/// `width - len` zero bytes followed by `b` itself.
pub open spec fn spec_align(b: Seq<u8>, width: int) -> Seq<u8> {
    Seq::new((width - b.len()) as nat, |i: int| 0u8) + b
}

/// Return exactly `width` bytes: the input zero-padded on the left.  An input
/// longer than `width` is rejected rather than truncated, so an oversize
/// monetary value can never pass silently.
pub fn align_bytes(bytes: &Vec<u8>, width: usize) -> (r: Result<Vec<u8>, Error>)
    ensures
        match r {
            Ok(v) => bytes@.len() <= width && v@ == spec_align(bytes@, width as int),
            Err(e) => e == Error::InvalidLength && bytes@.len() > width,
        },
{
    if bytes.len() > width {
        return Err(Error::InvalidLength);
    }
    let pad: usize = width - bytes.len();
    let mut out: Vec<u8> = Vec::new();
    let mut i: usize = 0;
    while i < pad
        invariant
            i <= pad,
            out@ =~= Seq::new(i as nat, |j: int| 0u8),
        decreases pad - i,
    {
        out.push(0u8);
        i = i + 1;
    }
    let mut k: usize = 0;
    while k < bytes.len()
        invariant
            k <= bytes@.len(),
            pad == width - bytes@.len(),
            out@ =~= Seq::new(pad as nat, |j: int| 0u8) + bytes@.take(k as int),
        decreases bytes@.len() - k,
    {
        out.push(bytes[k]);
        k = k + 1;
    }
    assert(out@ =~= spec_align(bytes@, width as int));
    Ok(out)
}

/// A decimal digit.
pub open spec fn is_dec_digit(c: char) -> bool {
    '0' <= c && c <= '9'
}

/// Every character of `s` is a decimal digit.
pub open spec fn is_dec_seq(s: Seq<char>) -> bool {
    forall|i: int| 0 <= i < s.len() ==> is_dec_digit(#[trigger] s[i])
}

/// The number denoted by a sequence of decimal digits.
pub open spec fn dec_value(s: Seq<char>) -> int
    decreases s.len(),
{
    if s.len() == 0 {
        0
    } else {
        dec_value(s.drop_last()) * 10 + (s.last() as int - '0' as int)
    }
}

/// The number denoted by a sequence of hexadecimal digits.
pub open spec fn hex_value(s: Seq<char>) -> int
    decreases s.len(),
{
    if s.len() == 0 {
        0
    } else {
        hex_value(s.drop_last()) * 16 + hex_digit_value(s.last())
    }
}

proof fn lemma_dec_value_nonneg(s: Seq<char>)
    requires
        is_dec_seq(s),
    ensures
        dec_value(s) >= 0,
    decreases s.len(),
{
    if s.len() > 0 {
        assert(is_dec_seq(s.drop_last()));
        lemma_dec_value_nonneg(s.drop_last());
        assert(dec_value(s.drop_last()) * 10 >= 0) by (nonlinear_arith)
            requires
                dec_value(s.drop_last()) >= 0,
        ;
    }
}

proof fn lemma_hex_value_nonneg(s: Seq<char>)
    requires
        is_hex_seq(s),
    ensures
        hex_value(s) >= 0,
    decreases s.len(),
{
    if s.len() > 0 {
        assert(is_hex_seq(s.drop_last()));
        lemma_hex_value_nonneg(s.drop_last());
        assert(hex_value(s.drop_last()) * 16 >= 0) by (nonlinear_arith)
            requires
                hex_value(s.drop_last()) >= 0,
        ;
    }
}

/// A digit string is worth at least any of its prefixes.
proof fn lemma_dec_prefix_le(s: Seq<char>, i: int)
    requires
        is_dec_seq(s),
        0 <= i <= s.len(),
    ensures
        dec_value(s.take(i)) <= dec_value(s),
    decreases s.len() - i,
{
    if i < s.len() {
        lemma_dec_prefix_le(s, i + 1);
        let p = s.take(i);
        let q = s.take(i + 1);
        assert(q.drop_last() =~= p);
        assert(is_dec_seq(p));
        lemma_dec_value_nonneg(p);
        assert(dec_value(p) * 10 >= dec_value(p)) by (nonlinear_arith)
            requires
                dec_value(p) >= 0,
        ;
        assert(dec_value(q) == dec_value(p) * 10 + (q.last() as int - '0' as int));
    } else {
        assert(s.take(i) =~= s);
    }
}

/// A hexadecimal digit string is worth at least any of its prefixes.
proof fn lemma_hex_prefix_le(s: Seq<char>, i: int)
    requires
        is_hex_seq(s),
        0 <= i <= s.len(),
    ensures
        hex_value(s.take(i)) <= hex_value(s),
    decreases s.len() - i,
{
    if i < s.len() {
        lemma_hex_prefix_le(s, i + 1);
        let p = s.take(i);
        let q = s.take(i + 1);
        assert(q.drop_last() =~= p);
        assert(is_hex_seq(p));
        lemma_hex_value_nonneg(p);
        assert(hex_value(p) * 16 >= hex_value(p)) by (nonlinear_arith)
            requires
                hex_value(p) >= 0,
        ;
        assert(hex_value(q) == hex_value(p) * 16 + hex_digit_value(q.last()));
    } else {
        assert(s.take(i) =~= s);
    }
}

/// Parse a non-empty string of decimal digits as an unsigned 64-bit integer;
/// anything non-numeric or overflowing is rejected.
pub fn parse_u64_dec(s: &str) -> (r: Result<u64, Error>)
    ensures
        match r {
            Ok(n) => s@.len() > 0 && is_dec_seq(s@) && n == dec_value(s@),
            Err(e) => e == Error::InvalidNumber && (s@.len() == 0 || !is_dec_seq(s@)
                || dec_value(s@) > u64::MAX),
        },
{
    let n = s.unicode_len();
    if n == 0 {
        return Err(Error::InvalidNumber);
    }
    let mut acc: u64 = 0;
    let mut i: usize = 0;
    while i < n
        invariant
            0 < n == s@.len(),
            i <= n,
            is_dec_seq(s@.take(i as int)),
            acc == dec_value(s@.take(i as int)),
        decreases n - i,
    {
        let c = s.get_char(i);
        if !(c >= '0' && c <= '9') {
            assert(!is_dec_digit(s@[i as int]));
            return Err(Error::InvalidNumber);
        }
        let d: u64 = (c as u32 as u64) - ('0' as u32 as u64);
        let stepped = match acc.checked_mul(10) {
            Some(m) => m.checked_add(d),
            None => None,
        };
        proof {
            let p = s@.take(i as int);
            let q = s@.take(i as int + 1);
            assert(q.drop_last() =~= p);
            assert(dec_value(q) == dec_value(p) * 10 + d);
        }
        match stepped {
            Some(v) => {
                acc = v;
            },
            None => {
                proof {
                    if is_dec_seq(s@) {
                        lemma_dec_prefix_le(s@, i as int + 1);
                    }
                }
                return Err(Error::InvalidNumber);
            },
        }
        i = i + 1;
    }
    proof {
        assert(s@.take(n as int) =~= s@);
    }
    Ok(acc)
}

/// Parse a non-empty string of hexadecimal digits (no prefix) as an unsigned
/// 64-bit integer; anything non-numeric or overflowing is rejected.
pub fn parse_u64_hex(s: &str) -> (r: Result<u64, Error>)
    ensures
        match r {
            Ok(n) => s@.len() > 0 && is_hex_seq(s@) && n == hex_value(s@),
            Err(e) => e == Error::InvalidNumber && (s@.len() == 0 || !is_hex_seq(s@)
                || hex_value(s@) > u64::MAX),
        },
{
    let n = s.unicode_len();
    if n == 0 {
        return Err(Error::InvalidNumber);
    }
    let mut acc: u64 = 0;
    let mut i: usize = 0;
    while i < n
        invariant
            0 < n == s@.len(),
            i <= n,
            is_hex_seq(s@.take(i as int)),
            acc == hex_value(s@.take(i as int)),
        decreases n - i,
    {
        let c = s.get_char(i);
        let d: u64 = if c >= '0' && c <= '9' {
            (c as u32 as u64) - ('0' as u32 as u64)
        } else if c >= 'a' && c <= 'f' {
            (c as u32 as u64) - ('a' as u32 as u64) + 10
        } else if c >= 'A' && c <= 'F' {
            (c as u32 as u64) - ('A' as u32 as u64) + 10
        } else {
            assert(!is_hex_digit(s@[i as int]));
            return Err(Error::InvalidNumber);
        };
        let stepped = match acc.checked_mul(16) {
            Some(m) => m.checked_add(d),
            None => None,
        };
        proof {
            let p = s@.take(i as int);
            let q = s@.take(i as int + 1);
            assert(q.drop_last() =~= p);
            assert(hex_value(q) == hex_value(p) * 16 + d);
        }
        match stepped {
            Some(v) => {
                acc = v;
            },
            None => {
                proof {
                    if is_hex_seq(s@) {
                        lemma_hex_prefix_le(s@, i as int + 1);
                    }
                }
                return Err(Error::InvalidNumber);
            },
        }
        i = i + 1;
    }
    proof {
        assert(s@.take(n as int) =~= s@);
    }
    Ok(acc)
}

} // verus!

