//! The outside primitives the ledger builds on: SHA-256 and hexadecimal text.
use vstd::prelude::*;

verus! {

/// The SHA-256 digest of a byte sequence.
pub uninterp spec fn sha256_of(data: Seq<u8>) -> Seq<u8>;

/// Relies on crypto_hash::digest with Algorithm::SHA256: a 256-bit digest
/// that depends on the input bytes alone.
#[verifier::external_body]
pub(crate) fn sha256(data: &[u8]) -> (r: Vec<u8>)
    ensures
        r@ == sha256_of(data@),
        r@.len() == 32,
{
    crypto_hash::digest(crypto_hash::Algorithm::SHA256, data)
}

/// The lowercase hexadecimal digit for `n` (taken modulo 16).
pub open spec fn lower_hex_digit(n: nat) -> char {
    let d = n % 16;
    if d < 10 {
        ('0' as u32 + d) as char
    } else {
        ('a' as u32 + (d - 10)) as char
    }
}

/// Two lowercase hexadecimal digits per byte, most significant digit first.
pub open spec fn hex_lower(b: Seq<u8>) -> Seq<char> {
    Seq::new(
        2 * b.len(),
        |i: int|
            if i % 2 == 0 {
                lower_hex_digit(b[i / 2] as nat / 16)
            } else {
                lower_hex_digit(b[i / 2] as nat % 16)
            },
    )
}

/// A hexadecimal digit of either case.
pub open spec fn is_hex_digit(c: char) -> bool {
    ('0' <= c && c <= '9') || ('a' <= c && c <= 'f') || ('A' <= c && c <= 'F')
}

/// The value of a hexadecimal digit.
pub open spec fn hex_value(c: char) -> nat {
    if '0' <= c && c <= '9' {
        (c as u32 - '0' as u32) as nat
    } else if 'a' <= c && c <= 'f' {
        (c as u32 - 'a' as u32 + 10) as nat
    } else {
        (c as u32 - 'A' as u32 + 10) as nat
    }
}

/// Text that hexadecimal decoding accepts: an even number of hex digits.
pub open spec fn is_hex_text(t: Seq<char>) -> bool {
    t.len() % 2 == 0 && forall|i: int| 0 <= i < t.len() ==> is_hex_digit(#[trigger] t[i])
}

/// The bytes that hexadecimal text stands for, two digits per byte.
pub open spec fn hex_bytes(t: Seq<char>) -> Seq<u8> {
    Seq::new(
        t.len() / 2,
        |i: int| (16 * hex_value(t[2 * i]) + hex_value(t[2 * i + 1])) as u8,
    )
}

/// Relies on hex::encode: each byte becomes two lowercase digits.
#[verifier::external_body]
pub(crate) fn hex_encode(b: &[u8]) -> (r: String)
    ensures
        r@ == hex_lower(b@),
{
    hex::encode(b)
}

/// Relies on hex::decode: it accepts an even number of digits of either case
/// and gives one byte per pair; the error's text is kept as the message.
#[verifier::external_body]
pub(crate) fn hex_decode(s: &str) -> (r: Result<Vec<u8>, String>)
    ensures
        r is Ok <==> is_hex_text(s@),
        r matches Ok(v) ==> v@ == hex_bytes(s@),
{
    hex::decode(s).map_err(|e| e.to_string())
}

/// A lowercase digit reads back as the number it was written for.
pub proof fn lemma_lower_hex_digit(n: nat)
    requires
        n < 16,
    ensures
        is_hex_digit(lower_hex_digit(n)),
        hex_value(lower_hex_digit(n)) == n,
{
}

/// Decoding the hexadecimal text of any bytes gives those bytes back.
pub proof fn lemma_hex_round_trip(b: Seq<u8>)
    ensures
        is_hex_text(hex_lower(b)),
        hex_bytes(hex_lower(b)) == b,
{
    let t = hex_lower(b);
    assert forall|i: int| 0 <= i < t.len() implies is_hex_digit(#[trigger] t[i]) by {
        lemma_lower_hex_digit(b[i / 2] as nat / 16);
        lemma_lower_hex_digit(b[i / 2] as nat % 16);
    }
    assert forall|i: int| 0 <= i < b.len() implies #[trigger] hex_bytes(t)[i] == b[i] by {
        assert((2 * i) / 2 == i);
        assert((2 * i + 1) / 2 == i);
        assert((2 * i) % 2 == 0);
        assert((2 * i + 1) % 2 == 1);
        lemma_lower_hex_digit(b[i] as nat / 16);
        lemma_lower_hex_digit(b[i] as nat % 16);
        assert(16 * (b[i] as nat / 16) + b[i] as nat % 16 == b[i] as nat);
    }
    assert(hex_bytes(t) =~= b);
}

} // verus!
