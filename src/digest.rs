//! Content hashing: 32-byte BLAKE2b digests written as lowercase hex.
use blake2::digest::consts::U32;
use blake2::{Blake2b, Digest};
use hex::FromHex;
use vstd::prelude::*;

verus! {

/// The sixteen lowercase hex digits, in order of value.
pub open spec fn hex_alphabet() -> Seq<char> {
    seq!['0', '1', '2', '3', '4', '5', '6', '7', '8', '9', 'a', 'b', 'c', 'd', 'e', 'f']
}

/// Lowercase hex of `b`: two digits per byte, high nibble first.
pub open spec fn hex_lower(b: Seq<u8>) -> Seq<char> {
    Seq::new(
        2 * b.len(),
        |i: int|
            if i % 2 == 0 {
                hex_alphabet()[b[i / 2] as int / 16]
            } else {
                hex_alphabet()[b[i / 2] as int % 16]
            },
    )
}

/// A lowercase hex digit.
pub open spec fn is_lower_hex_char(c: char) -> bool {
    ('0' <= c && c <= '9') || ('a' <= c && c <= 'f')
}

/// A hex digit of either case.
pub open spec fn is_hex_char(c: char) -> bool {
    ('0' <= c && c <= '9') || ('a' <= c && c <= 'f') || ('A' <= c && c <= 'F')
}

/// Every character of `s` is a lowercase hex digit.
pub open spec fn is_lower_hex(s: Seq<char>) -> bool {
    forall|i: int| 0 <= i < s.len() ==> is_lower_hex_char(#[trigger] s[i])
}

/// Every character of `s` is a hex digit.
pub open spec fn is_hex(s: Seq<char>) -> bool {
    forall|i: int| 0 <= i < s.len() ==> is_hex_char(#[trigger] s[i])
}

/// Value of a hex digit of either case.
pub open spec fn hex_value(c: char) -> int {
    if '0' <= c && c <= '9' {
        c as int - '0' as int
    } else if 'a' <= c && c <= 'f' {
        c as int - 'a' as int + 10
    } else {
        c as int - 'A' as int + 10
    }
}

/// The bytes that the hex text `s` spells, two digits per byte.
pub open spec fn hex_bytes(s: Seq<char>) -> Seq<u8> {
    Seq::new(s.len() / 2, |i: int| (hex_value(s[2 * i]) * 16 + hex_value(s[2 * i + 1])) as u8)
}

/// The 32-byte BLAKE2b digest of `data`.
pub uninterp spec fn blake2b_256(data: Seq<u8>) -> Seq<u8>;

/// Relies on blake2's `Blake2b<U32>`: a 32-byte digest determined by the input bytes.
#[verifier::external_body]
fn blake2b_256_digest(data: &[u8]) -> (r: Vec<u8>)
    ensures
        r@ == blake2b_256(data@),
        r@.len() == 32,
{
    Blake2b::<U32>::digest(data).to_vec()
}

/// Relies on `hex::encode`: two lowercase digits per byte, high nibble first.
#[verifier::external_body]
fn hex_encode(data: &[u8]) -> (r: String)
    ensures
        r@ == hex_lower(data@),
{
    hex::encode(data)
}

/// Relies on `<[u8; 32] as hex::FromHex>::from_hex`: it accepts exactly 64 hex
/// digits of either case and yields the bytes they spell.
#[verifier::external_body]
fn hex_decode_32(s: &str) -> (r: Option<Vec<u8>>)
    ensures
        r is Some <==> (s@.len() == 64 && is_hex(s@)),
        r matches Some(b) ==> b@ == hex_bytes(s@),
{
    <[u8; 32]>::from_hex(s).ok().map(|a| a.to_vec())
}

proof fn lemma_hex_lower_is_lower_hex(b: Seq<u8>)
    ensures
        is_lower_hex(hex_lower(b)),
        hex_lower(b).len() == 2 * b.len(),
{
    assert forall|i: int| 0 <= i < hex_lower(b).len() implies is_lower_hex_char(
        #[trigger] hex_lower(b)[i],
    ) by {
        let hi = b[i / 2] as int / 16;
        let lo = b[i / 2] as int % 16;
        assert(0 <= hi < 16 && 0 <= lo < 16);
    }
}

/// Content identifier of a byte string: lowercase hex of its 32-byte BLAKE2b digest.
pub fn hash_bytes(data: &[u8]) -> (r: String)
    ensures
        r@ == hex_lower(blake2b_256(data@)),
        r@.len() == 64,
        is_lower_hex(r@),
{
    let d = blake2b_256_digest(data);
    let r = hex_encode(d.as_slice());
    proof {
        lemma_hex_lower_is_lower_hex(d@);
    }
    r
}

/// The raw 32 bytes that a code identifier of 64 hex digits spells; `None`
/// for any other text.
pub fn code_id_bytes(code_id: &str) -> (r: Option<Vec<u8>>)
    ensures
        r is Some <==> (code_id@.len() == 64 && is_hex(code_id@)),
        r matches Some(b) ==> b@ == hex_bytes(code_id@) && b@.len() == 32,
{
    hex_decode_32(code_id)
}

/// Hashing is deterministic: whenever two calls of `hash_bytes` see the same
/// bytes, they return the same identifier.
pub proof fn lemma_hash_deterministic(a: Seq<u8>, b: Seq<u8>, ra: Seq<char>, rb: Seq<char>)
    requires
        a == b,
        ra == hex_lower(blake2b_256(a)),
        rb == hex_lower(blake2b_256(b)),
    ensures
        ra == rb,
{
}

} // verus!
