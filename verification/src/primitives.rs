//! Trusted boundary around the cryptographic and randomness crates.
//!
//! Each function here wraps exactly one outside operation; its contract
//! states what that operation's source and documentation show, and the
//! rest of the crate is verified against these contracts.  Results that
//! are functions of the arguments alone (the key derivation, the hash,
//! the cipher) are given uninterpreted names; of random material only the
//! shape of every outcome is stated.

use aead::Aead;
use aes_gcm::aead::KeyInit;
use aes_gcm::{Aes256Gcm, Key, Nonce};
use rand::Rng;
use rand_core::RngCore;
use sha2::Digest;
use vstd::prelude::*;

verus! {

/// Declares aead's opaque error type so wrappers can return it.
#[verifier::external_type_specification]
#[verifier::external_body]
pub struct ExAeadError(aead::Error);

/// Whether a byte is an ASCII letter or digit.
pub open spec fn is_alphanumeric_byte(b: u8) -> bool {
    (48 <= b <= 57) || (65 <= b <= 90) || (97 <= b <= 122)
}

/// The PBKDF2-HMAC-SHA-256 key of the given length derived from a
/// password and a salt with the given round count.
pub uninterp spec fn pbkdf2_key(password: Seq<u8>, salt: Seq<u8>, rounds: u32, out_len: nat) -> Seq<u8>;

/// The SHA-256 digest of a byte string.
pub uninterp spec fn sha256_of(data: Seq<u8>) -> Seq<u8>;

/// What AES-256-GCM encryption of a plaintext under a key and nonce
/// produces: the ciphertext with its 16-byte tag appended.
pub uninterp spec fn aes256_gcm_seal(key: Seq<u8>, nonce: Seq<u8>, plaintext: Seq<u8>) -> Seq<u8>;

/// What AES-256-GCM decryption of a byte string under a key and nonce
/// returns: the plaintext when the tag verifies, nothing otherwise.
pub uninterp spec fn aes256_gcm_open(key: Seq<u8>, nonce: Seq<u8>, ciphertext: Seq<u8>) -> Option<Seq<u8>>;

/// Relies on rand's Alphanumeric distribution: every sampled byte is an
/// ASCII letter or digit.
#[verifier::external_body]
pub(crate) fn random_alphanumeric_bytes(len: usize) -> (r: Vec<u8>)
    ensures
        r@.len() == len,
        forall|i: int| 0 <= i < r@.len() ==> is_alphanumeric_byte(#[trigger] r@[i]),
{
    rand::thread_rng().sample_iter(&rand::distributions::Alphanumeric).take(len).collect()
}

/// Relies on rand::Rng::fill: fills the whole buffer with random bytes.
#[verifier::external_body]
pub(crate) fn random_bytes(len: usize) -> (r: Vec<u8>)
    ensures
        r@.len() == len,
{
    let mut buf = vec![0u8; len];
    rand::thread_rng().fill(&mut buf[..]);
    buf
}

/// Relies on rand_core::OsRng::fill_bytes: fills the whole buffer from
/// the operating system's generator.
#[verifier::external_body]
pub(crate) fn os_random_bytes(len: usize) -> (r: Vec<u8>)
    ensures
        r@.len() == len,
{
    let mut buf = vec![0u8; len];
    rand_core::OsRng.fill_bytes(&mut buf);
    buf
}

/// Relies on pbkdf2::pbkdf2 with HMAC-SHA-256: fills a buffer of the asked
/// length, deterministically in the password, salt and round count.  HMAC
/// accepts keys of any length, so the call cannot fail.
#[verifier::external_body]
pub(crate) fn pbkdf2_hmac_sha256(password: &[u8], salt: &[u8], rounds: u32, out_len: usize) -> (r:
    Vec<u8>)
    requires
        out_len <= 0xffffffff,
    ensures
        r@.len() == out_len,
        r@ == pbkdf2_key(password@, salt@, rounds, out_len as nat),
{
    let mut out = vec![0u8; out_len];
    pbkdf2::pbkdf2::<hmac::Hmac<sha2::Sha256>>(password, salt, rounds, &mut out).unwrap();
    out
}

/// Relies on sha2::Sha256: a 32-byte digest, a function of the input alone.
#[verifier::external_body]
pub(crate) fn sha256_digest(data: &[u8]) -> (r: Vec<u8>)
    ensures
        r@.len() == 32,
        r@ == sha256_of(data@),
{
    sha2::Sha256::digest(data).to_vec()
}

/// Relies on aes_gcm::Aes256Gcm through aead::Aead::encrypt: appends a
/// 16-byte tag, decrypts back to the plaintext under the same key and
/// nonce, and fails only beyond the single-message length limit of 2^36
/// bytes.
#[verifier::external_body]
pub(crate) fn aes256_gcm_encrypt(key: &[u8], nonce: &[u8], plaintext: &[u8]) -> (r: Result<
    Vec<u8>,
    aead::Error,
>)
    requires
        key@.len() == 32,
        nonce@.len() == 12,
    ensures
        r matches Ok(ct) ==> ct@ == aes256_gcm_seal(key@, nonce@, plaintext@),
        r matches Ok(ct) ==> ct@.len() == plaintext@.len() + 16,
        r matches Ok(ct) ==> aes256_gcm_open(key@, nonce@, ct@) == Some(plaintext@),
        plaintext@.len() <= 68719476736 ==> r is Ok,
{
    let cipher = Aes256Gcm::new(Key::<Aes256Gcm>::from_slice(key));
    cipher.encrypt(Nonce::from_slice(nonce), plaintext)
}

/// Relies on aes_gcm::Aes256Gcm through aead::Aead::decrypt: verifies the
/// appended tag and fails closed, never returning partial plaintext.
#[verifier::external_body]
pub(crate) fn aes256_gcm_decrypt(key: &[u8], nonce: &[u8], ciphertext: &[u8]) -> (r: Result<
    Vec<u8>,
    aead::Error,
>)
    requires
        key@.len() == 32,
        nonce@.len() == 12,
    ensures
        match r {
            Ok(pt) => aes256_gcm_open(key@, nonce@, ciphertext@) == Some(pt@),
            Err(_) => aes256_gcm_open(key@, nonce@, ciphertext@) is None,
        },
{
    let cipher = Aes256Gcm::new(Key::<Aes256Gcm>::from_slice(key));
    cipher.decrypt(Nonce::from_slice(nonce), ciphertext)
}

} // verus!
