//! Identifiers: generated job ids, content-addressed code ids, and the
//! validation of code ids and builder versions.
use crate::consts::{allowed_versions, AVAILABLE_VERSIONS, CODE_ID_LEN, ID_LEN};
use crate::digest::{
    blake2b_256, hash_bytes, hex_lower, is_hex, is_hex_char, is_lower_hex, is_lower_hex_char,
};
use crate::error::VerifierError;
use crate::text::{push_char, same_text};
use rand::distributions::{Alphanumeric, DistString};
use rand::thread_rng;
use vstd::prelude::*;
use vstd::utf8::encode_utf8;

verus! {

/// An ASCII letter or digit.
pub open spec fn is_ascii_alphanumeric(c: char) -> bool {
    ('0' <= c && c <= '9') || ('a' <= c && c <= 'z') || ('A' <= c && c <= 'Z')
}

/// Relies on rand's `Alphanumeric` distribution drawn from `thread_rng()`:
/// `len` characters, each an ASCII letter or digit.
#[verifier::external_body]
fn random_alphanumeric(len: usize) -> (r: String)
    ensures
        r@.len() == len,
        forall|i: int| 0 <= i < r@.len() ==> is_ascii_alphanumeric(#[trigger] r@[i]),
{
    Alphanumeric.sample_string(&mut thread_rng(), len)
}

/// A fresh random verification id of 15 ASCII letters and digits.
pub fn generate_id() -> (r: String)
    ensures
        r@.len() == ID_LEN,
        forall|i: int| 0 <= i < r@.len() ==> is_ascii_alphanumeric(#[trigger] r@[i]),
{
    random_alphanumeric(ID_LEN)
}

/// The code identifier of a program binary: lowercase hex of its 32-byte BLAKE2b digest.
pub fn generate_code_id(code: &[u8]) -> (r: String)
    ensures
        r@ == hex_lower(blake2b_256(code@)),
        r@.len() == CODE_ID_LEN,
        is_lower_hex(r@),
{
    hash_bytes(code)
}

/// The key of an interface definition: lowercase hex of the 32-byte BLAKE2b
/// digest of its UTF-8 bytes.
pub fn hash_idl(idl_data: &str) -> (r: String)
    ensures
        r@ == hex_lower(blake2b_256(encode_utf8(idl_data@))),
        r@.len() == CODE_ID_LEN,
        is_lower_hex(r@),
{
    hash_bytes(idl_data.as_bytes())
}

/// `Ok` exactly when `version` is in the allow-list.
pub fn check_docker_version(version: &str) -> (r: Result<(), VerifierError>)
    ensures
        r is Ok <==> allowed_versions().contains(version@),
        r matches Err(e) ==> e == VerifierError::UnsupportedVersion,
{
    let mut i: usize = 0;
    while i < 3
        invariant
            i <= 3,
            forall|k: int| 0 <= k < i ==> allowed_versions()[k] != version@,
        decreases 3 - i,
    {
        if same_text(AVAILABLE_VERSIONS[i], version) {
            assert(allowed_versions()[i as int] == version@);
            return Ok(());
        }
        i = i + 1;
    }
    assert(!allowed_versions().contains(version@)) by {
        if allowed_versions().contains(version@) {
            let k = choose|k: int| 0 <= k < allowed_versions().len() && allowed_versions()[k] == version@;
            assert(0 <= k < 3);
        }
    }
    Err(VerifierError::UnsupportedVersion)
}

/// `s` without a leading `0x`, when it has one.
pub open spec fn unprefixed(s: Seq<char>) -> Option<Seq<char>> {
    if s.len() >= 2 && s[0] == '0' && s[1] == 'x' {
        Some(s.subrange(2, s.len() as int))
    } else {
        None
    }
}

/// The lowercase form of a hex digit; any other character is kept.
pub open spec fn lower_hex_char(c: char) -> char {
    if c == 'A' {
        'a'
    } else if c == 'B' {
        'b'
    } else if c == 'C' {
        'c'
    } else if c == 'D' {
        'd'
    } else if c == 'E' {
        'e'
    } else if c == 'F' {
        'f'
    } else {
        c
    }
}

/// `s` with its uppercase hex digits lowered.
pub open spec fn lower_hex_text(s: Seq<char>) -> Seq<char> {
    s.map_values(|c: char| lower_hex_char(c))
}

/// `s` with a leading `0x` removed, if it has one.
pub open spec fn without_prefix(s: Seq<char>) -> Seq<char> {
    match unprefixed(s) {
        Some(u) => u,
        None => s,
    }
}

/// The canonical form of a code identifier: an optional `0x` removed, then
/// exactly 64 hex digits, lowered. `None` when the text is not of that shape.
pub open spec fn normalized_code_id(s: Seq<char>) -> Option<Seq<char>> {
    let t = without_prefix(s);
    if t.len() == CODE_ID_LEN && is_hex(t) {
        Some(lower_hex_text(t))
    } else {
        None
    }
}

/// The part of `code_id` after a leading `0x`; `None` when there is no such prefix.
pub fn get_unprefixed_code_id(code_id: &str) -> (r: Option<&str>)
    ensures
        r matches Some(u) ==> unprefixed(code_id@) == Some(u@),
        r is None ==> unprefixed(code_id@) is None,
{
    let n = code_id.unicode_len();
    if n >= 2 && code_id.get_char(0) == '0' && code_id.get_char(1) == 'x' {
        Some(code_id.substring_char(2, n))
    } else {
        None
    }
}

fn is_hex_digit(c: char) -> (r: bool)
    ensures
        r == is_hex_char(c),
{
    ('0' <= c && c <= '9') || ('a' <= c && c <= 'f') || ('A' <= c && c <= 'F')
}

fn lower_hex_digit(c: char) -> (r: char)
    ensures
        r == lower_hex_char(c),
{
    match c {
        'A' => 'a',
        'B' => 'b',
        'C' => 'c',
        'D' => 'd',
        'E' => 'e',
        'F' => 'f',
        _ => c,
    }
}

/// Validates a code identifier and returns its canonical form: without `0x`,
/// 64 lowercase hex digits. Any other text is `InvalidCodeId`.
pub fn validate_and_get_code_id(code_id: &str) -> (r: Result<String, VerifierError>)
    ensures
        r is Ok <==> normalized_code_id(code_id@) is Some,
        r matches Ok(t) ==> normalized_code_id(code_id@) == Some(t@),
        r matches Err(e) ==> e == VerifierError::InvalidCodeId,
{
    let t: &str = match get_unprefixed_code_id(code_id) {
        Some(u) => u,
        None => code_id,
    };
    assert(t@ == without_prefix(code_id@));
    let n = t.unicode_len();
    if n != CODE_ID_LEN {
        return Err(VerifierError::InvalidCodeId);
    }
    let mut out = String::new();
    let mut i: usize = 0;
    while i < n
        invariant
            n == t@.len(),
            t@ == without_prefix(code_id@),
            i <= n,
            out@.len() == i,
            forall|k: int| 0 <= k < i ==> is_hex_char(#[trigger] t@[k]),
            forall|k: int| 0 <= k < i ==> #[trigger] out@[k] == lower_hex_char(t@[k]),
        decreases n - i,
    {
        let c = t.get_char(i);
        if !is_hex_digit(c) {
            assert(!is_hex_char(t@[i as int]));
            assert(!is_hex(t@));
            return Err(VerifierError::InvalidCodeId);
        }
        push_char(&mut out, lower_hex_digit(c));
        i = i + 1;
    }
    assert(out@ =~= lower_hex_text(t@));
    Ok(out)
}

/// Normalising a code identifier twice gives what normalising it once gave.
pub proof fn lemma_normalize_idempotent(s: Seq<char>)
    requires
        normalized_code_id(s) is Some,
    ensures
        normalized_code_id(normalized_code_id(s)->0) == normalized_code_id(s),
{
    let u = without_prefix(s);
    let t = normalized_code_id(s)->0;
    assert(t == lower_hex_text(u));
    assert forall|i: int| 0 <= i < t.len() implies is_lower_hex_char(#[trigger] t[i]) by {
        assert(is_hex_char(u[i]));
    }
    assert(is_lower_hex_char(t[1]));
    assert(unprefixed(t) is None);
    assert forall|i: int| 0 <= i < t.len() implies is_hex_char(#[trigger] t[i]) by {
        assert(is_lower_hex_char(t[i]));
    }
    assert(lower_hex_text(t) =~= t);
}

/// A `0x` followed by 64 hex digits normalises to those digits, lowered; with
/// one digit fewer or more it is refused.
pub proof fn lemma_prefixed_code_id(s: Seq<char>)
    requires
        is_hex(s),
    ensures
        s.len() == 64 ==> normalized_code_id(seq!['0', 'x'] + s) == Some(lower_hex_text(s)),
        s.len() == 63 || s.len() == 65 ==> normalized_code_id(seq!['0', 'x'] + s) is None,
{
    let p = seq!['0', 'x'] + s;
    assert(p.subrange(2, p.len() as int) =~= s);
}

} // verus!
