//! Integrity verifier: SHA-256 content digests as lowercase hex, and the
//! case-insensitive comparison between a declared and a computed digest.
//!
//! A digest mismatch is reported, not fatal: the pipeline keeps the
//! decrypted file and only flags the condition.

use crate::hex::{hex_digit, hex_encode, hex_encoding};
use crate::primitives::{sha256_digest, sha256_of};
use vstd::prelude::*;

verus! {

/// The ASCII lowercase form of a byte.
pub open spec fn lower_byte(b: u8) -> u8 {
    if 65 <= b <= 90 {
        (b + 32) as u8
    } else {
        b
    }
}

/// Bytewise ASCII lowercasing of a string.
pub open spec fn lower_bytes(s: Seq<u8>) -> Seq<u8> {
    s.map_values(|b: u8| lower_byte(b))
}

/// The lowercase hex SHA-256 digest of a byte string: 64 hex digits.
pub open spec fn digest_hex_of(data: Seq<u8>) -> Seq<u8> {
    hex_encoding(sha256_of(data))
}

/// Computes the lowercase hex SHA-256 digest of file content.
pub fn digest_bytes(data: &[u8]) -> (r: Vec<u8>)
    ensures
        r@ == digest_hex_of(data@),
        r@.len() == 64,
{
    let d = sha256_digest(data);
    hex_encode(d.as_slice())
}

/// Lowercases the ASCII letters of a byte string.
pub fn to_lower_ascii(s: &[u8]) -> (r: Vec<u8>)
    ensures
        r@ == lower_bytes(s@),
{
    let mut out: Vec<u8> = Vec::new();
    let mut i: usize = 0;
    while i < s.len()
        invariant
            i <= s@.len(),
            out@ == lower_bytes(s@).subrange(0, i as int),
        decreases s@.len() - i,
    {
        let b = s[i];
        if 65 <= b && b <= 90 {
            out.push(b + 32);
        } else {
            out.push(b);
        }
        i = i + 1;
        proof {
            assert(out@ =~= lower_bytes(s@).subrange(0, i as int));
        }
    }
    proof {
        assert(out@ =~= lower_bytes(s@));
    }
    out
}

/// Bytewise equality of two byte strings.
fn bytes_equal(a: &[u8], b: &[u8]) -> (r: bool)
    ensures
        r == (a@ == b@),
{
    if a.len() != b.len() {
        proof {
            assert(a@ != b@);
        }
        return false;
    }
    let mut i: usize = 0;
    while i < a.len()
        invariant
            i <= a@.len(),
            a@.len() == b@.len(),
            forall|j: int| 0 <= j < i ==> a@[j] == b@[j],
        decreases a@.len() - i,
    {
        if a[i] != b[i] {
            return false;
        }
        i = i + 1;
    }
    proof {
        assert(a@ =~= b@);
    }
    true
}

/// Compares a declared digest against a computed lowercase digest,
/// ignoring the case of the declared one.
pub fn digest_matches(declared: &[u8], computed: &[u8]) -> (r: bool)
    ensures
        r == (lower_bytes(declared@) == computed@),
{
    let lowered = to_lower_ascii(declared);
    bytes_equal(lowered.as_slice(), computed)
}

/// A hex encoding is already lowercase, so lowercasing fixes it.
pub proof fn lemma_hex_encoding_lowercase(bytes: Seq<u8>)
    ensures
        lower_bytes(hex_encoding(bytes)) == hex_encoding(bytes),
{
    let h = hex_encoding(bytes);
    assert forall|i: int| 0 <= i < h.len() implies lower_byte(#[trigger] h[i]) == h[i] by {
        if i % 2 == 0 {
            assert(h[i] == hex_digit(bytes[i / 2] / 16));
        } else {
            assert(h[i] == hex_digit(bytes[i / 2] % 16));
        }
    }
    assert(lower_bytes(h) =~= h);
}

} // verus!
