//! Envelope encryption engine: key generation, PBKDF2 key derivation, and
//! AES-256-GCM encryption of file bytes and of the file key itself.
//!
//! Two independent layers use the same primitives: `encrypt_artifact` /
//! `decrypt_artifact` carry the file content as `salt || nonce ||
//! ciphertext+tag`, while `encrypt_data` / `decrypt_data` wrap the file
//! key as three hex fields of the header.

use crate::errors::TransferError;
use crate::hex::{hex_decode, hex_decoding, hex_encode, lemma_hex_round_trip};
use crate::primitives::{
    aes256_gcm_decrypt, aes256_gcm_encrypt, aes256_gcm_open, is_alphanumeric_byte, os_random_bytes,
    pbkdf2_hmac_sha256, pbkdf2_key, random_alphanumeric_bytes, random_bytes,
};
use vstd::prelude::*;
use vstd::slice::slice_subrange;

verus! {

/// PBKDF2 round count of the key-derivation step.
pub const PBKDF2_ROUNDS: u32 = 100000;

/// Byte length of a salt.
pub const SALT_LEN: usize = 16;

/// Byte length of an AES-GCM nonce.
pub const NONCE_LEN: usize = 12;

/// Byte length of a derived AES-256 key.
pub const KEY_LEN: usize = 32;

/// Byte length of a generated secret.
pub const SECRET_LEN: usize = 16;

/// Byte length of the authentication tag AES-GCM appends.
pub const TAG_LEN: usize = 16;

/// Longest plaintext AES-GCM encrypts in one message (2^36 bytes).
pub const GCM_MAX_PLAINTEXT: u64 = 68719476736;

/// The AES-256 key derived from a secret and a salt.
pub open spec fn derived_key(secret: Seq<u8>, salt: Seq<u8>) -> Seq<u8> {
    pbkdf2_key(secret, salt, PBKDF2_ROUNDS, KEY_LEN as nat)
}

/// What decrypting three hex fields under a secret yields: the plaintext
/// when all fields are well-formed hex, the nonce is 12 bytes and the tag
/// verifies; nothing otherwise.
pub open spec fn decrypt_data_spec(
    secret: Seq<u8>,
    salt_hex: Seq<u8>,
    nonce_hex: Seq<u8>,
    ct_hex: Seq<u8>,
) -> Option<Seq<u8>> {
    match hex_decoding(salt_hex) {
        Some(salt) => match hex_decoding(nonce_hex) {
            Some(nonce) => match hex_decoding(ct_hex) {
                Some(ct) => if nonce.len() == NONCE_LEN {
                    aes256_gcm_open(derived_key(secret, salt), nonce, ct)
                } else {
                    None
                },
                None => None,
            },
            None => None,
        },
        None => None,
    }
}

/// What decrypting an artifact (`salt || nonce || ciphertext+tag`) under a
/// secret yields, with the error that each malformed shape is reported as.
pub open spec fn artifact_decryption(artifact: Seq<u8>, secret: Seq<u8>) -> Result<
    Seq<u8>,
    TransferError,
> {
    if artifact.len() < SALT_LEN + NONCE_LEN {
        Err(TransferError::MalformedArtifact)
    } else {
        match aes256_gcm_open(
            derived_key(secret, artifact.subrange(0, SALT_LEN as int)),
            artifact.subrange(SALT_LEN as int, (SALT_LEN + NONCE_LEN) as int),
            artifact.subrange((SALT_LEN + NONCE_LEN) as int, artifact.len() as int),
        ) {
            Some(pt) => Ok(pt),
            None => Err(TransferError::AuthenticationFailed),
        }
    }
}

/// Generates a fresh 16-byte alphanumeric secret.
pub fn generate_secret() -> (r: Vec<u8>)
    ensures
        r@.len() == SECRET_LEN,
        forall|i: int| 0 <= i < r@.len() ==> is_alphanumeric_byte(#[trigger] r@[i]),
{
    random_alphanumeric_bytes(SECRET_LEN)
}

/// Derives the 32-byte AES key of a secret and a salt.
pub fn derive_key(secret: &[u8], salt: &[u8]) -> (r: Vec<u8>)
    ensures
        r@ == derived_key(secret@, salt@),
        r@.len() == KEY_LEN,
{
    pbkdf2_hmac_sha256(secret, salt, PBKDF2_ROUNDS, KEY_LEN)
}

/// Encrypts a plaintext under a secret with a fresh salt and nonce,
/// returning the salt, nonce and ciphertext+tag as lowercase hex fields
/// that `decrypt_data` maps back to exactly this plaintext.
pub fn encrypt_data(secret: &[u8], plaintext: &[u8]) -> (r: Result<
    (Vec<u8>, Vec<u8>, Vec<u8>),
    TransferError,
>)
    ensures
        plaintext@.len() <= GCM_MAX_PLAINTEXT ==> r is Ok,
        r matches Ok((s, n, c)) ==> s@.len() == 2 * SALT_LEN && n@.len() == 2 * NONCE_LEN
            && c@.len() == 2 * (plaintext@.len() + TAG_LEN) && decrypt_data_spec(
            secret@,
            s@,
            n@,
            c@,
        ) == Some(plaintext@),
        r matches Err(e) ==> e == TransferError::PayloadTooLarge && plaintext@.len()
            > GCM_MAX_PLAINTEXT,
{
    let salt = random_bytes(SALT_LEN);
    let nonce = random_bytes(NONCE_LEN);
    let key = derive_key(secret, salt.as_slice());
    match aes256_gcm_encrypt(key.as_slice(), nonce.as_slice(), plaintext) {
        Ok(ct) => {
            proof {
                lemma_hex_round_trip(salt@);
                lemma_hex_round_trip(nonce@);
                lemma_hex_round_trip(ct@);
            }
            let salt_hex = hex_encode(salt.as_slice());
            let nonce_hex = hex_encode(nonce.as_slice());
            let ct_hex = hex_encode(ct.as_slice());
            Ok((salt_hex, nonce_hex, ct_hex))
        },
        Err(_) => Err(TransferError::PayloadTooLarge),
    }
}

/// Decrypts the three hex fields of a wrapped key; fails closed with an
/// authentication error on malformed hex or a tag mismatch.
pub fn decrypt_data(secret: &[u8], salt_hex: &[u8], nonce_hex: &[u8], ct_hex: &[u8]) -> (r: Result<
    Vec<u8>,
    TransferError,
>)
    ensures
        r matches Ok(pt) ==> decrypt_data_spec(secret@, salt_hex@, nonce_hex@, ct_hex@) == Some(
            pt@,
        ),
        r matches Err(e) ==> e == TransferError::AuthenticationFailed && decrypt_data_spec(
            secret@,
            salt_hex@,
            nonce_hex@,
            ct_hex@,
        ) is None,
{
    let salt = match hex_decode(salt_hex) {
        Some(v) => v,
        None => {
            return Err(TransferError::AuthenticationFailed);
        },
    };
    let nonce = match hex_decode(nonce_hex) {
        Some(v) => v,
        None => {
            return Err(TransferError::AuthenticationFailed);
        },
    };
    let ct = match hex_decode(ct_hex) {
        Some(v) => v,
        None => {
            return Err(TransferError::AuthenticationFailed);
        },
    };
    if nonce.len() != NONCE_LEN {
        return Err(TransferError::AuthenticationFailed);
    }
    let key = derive_key(secret, salt.as_slice());
    match aes256_gcm_decrypt(key.as_slice(), nonce.as_slice(), ct.as_slice()) {
        Ok(pt) => Ok(pt),
        Err(_) => Err(TransferError::AuthenticationFailed),
    }
}

/// Encrypts file content under a secret into an artifact laid out as
/// `salt(16) || nonce(12) || ciphertext+tag`.  The round trip holds: the
/// artifact decrypts under the same secret to exactly the content.
pub fn encrypt_artifact(content: &[u8], secret: &[u8]) -> (r: Result<Vec<u8>, TransferError>)
    ensures
        content@.len() <= GCM_MAX_PLAINTEXT ==> r is Ok,
        r matches Ok(a) ==> a@.len() == content@.len() + SALT_LEN + NONCE_LEN + TAG_LEN
            && artifact_decryption(a@, secret@) == Ok::<Seq<u8>, TransferError>(content@),
        r matches Err(e) ==> e == TransferError::PayloadTooLarge && content@.len()
            > GCM_MAX_PLAINTEXT,
{
    let salt = random_bytes(SALT_LEN);
    let nonce = os_random_bytes(NONCE_LEN);
    let key = derive_key(secret, salt.as_slice());
    match aes256_gcm_encrypt(key.as_slice(), nonce.as_slice(), content) {
        Ok(ct) => {
            let mut out: Vec<u8> = Vec::new();
            out.extend_from_slice(salt.as_slice());
            out.extend_from_slice(nonce.as_slice());
            out.extend_from_slice(ct.as_slice());
            proof {
                assert(out@.subrange(0, SALT_LEN as int) =~= salt@);
                assert(out@.subrange(SALT_LEN as int, (SALT_LEN + NONCE_LEN) as int) =~= nonce@);
                assert(out@.subrange((SALT_LEN + NONCE_LEN) as int, out@.len() as int) =~= ct@);
            }
            Ok(out)
        },
        Err(_) => Err(TransferError::PayloadTooLarge),
    }
}

/// Decrypts an artifact under a secret; a buffer shorter than salt and
/// nonce is a format error, a tag mismatch an authentication error, and
/// no partial plaintext is ever returned.
pub fn decrypt_artifact(artifact: &[u8], secret: &[u8]) -> (r: Result<Vec<u8>, TransferError>)
    ensures
        match r {
            Ok(pt) => artifact_decryption(artifact@, secret@) == Ok::<Seq<u8>, TransferError>(pt@),
            Err(e) => artifact_decryption(artifact@, secret@) == Err::<Seq<u8>, TransferError>(e),
        },
{
    if artifact.len() < SALT_LEN + NONCE_LEN {
        return Err(TransferError::MalformedArtifact);
    }
    let salt = slice_subrange(artifact, 0, SALT_LEN);
    let nonce = slice_subrange(artifact, SALT_LEN, SALT_LEN + NONCE_LEN);
    let ct = slice_subrange(artifact, SALT_LEN + NONCE_LEN, artifact.len());
    let key = derive_key(secret, salt);
    match aes256_gcm_decrypt(key.as_slice(), nonce, ct) {
        Ok(pt) => Ok(pt),
        Err(_) => Err(TransferError::AuthenticationFailed),
    }
}

} // verus!
