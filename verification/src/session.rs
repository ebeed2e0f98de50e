//! Per-connection transfer pipeline.
//!
//! The receive side runs one worker per connection over its fully
//! accumulated byte stream: recover the header, unwrap the file key with
//! the transmitted envelope key, decrypt the payload artifact, and check
//! the digest.  Each worker is a pure function of its own connection's
//! bytes, so one malformed connection cannot disturb another.  The send
//! side is a linear pipeline that digests, encrypts and frames a file
//! into a plan the transport streams out.

use crate::codec::{decode_spec, decode_transfer, lemma_codec_round_trip, TransferHeader};
use crate::digest::{
    digest_bytes, digest_hex_of, digest_matches, lemma_hex_encoding_lowercase, lower_bytes,
};
use crate::envelope::{
    artifact_decryption, decrypt_artifact, decrypt_data, decrypt_data_spec, encrypt_artifact,
    encrypt_data, generate_secret, GCM_MAX_PLAINTEXT,
};
use crate::errors::TransferError;
use vstd::prelude::*;
use vstd::slice::slice_to_vec;

verus! {

/// What one finished worker hands back: the transfer's filename, the
/// decrypted content, and the outcome of the integrity check.
#[derive(Debug)]
pub struct ReceivedTransfer {
    /// Filename bytes the header carried.
    pub filename: Vec<u8>,
    /// The decrypted file content.
    pub content: Vec<u8>,
    /// The lowercase hex digest computed over `content`.
    pub computed_digest_hex: Vec<u8>,
    /// Whether the declared digest matches the computed one,
    /// case-insensitively.  A mismatch is reported, never fatal.
    pub digest_ok: bool,
}

/// The mathematical value of a finished reception.
#[verifier::ext_equal]
pub ghost struct ReceivedModel {
    pub filename: Seq<u8>,
    pub content: Seq<u8>,
    pub digest_ok: bool,
}

/// What the receive pipeline yields on a byte stream: the decoded and
/// decrypted transfer, or the first error of header parse, key recovery
/// and payload decryption.
pub open spec fn process_spec(data: Seq<u8>) -> Result<ReceivedModel, TransferError> {
    match decode_spec(data) {
        None => Err(TransferError::MalformedHeader),
        Some(d) => match decrypt_data_spec(
            d.envelope_key,
            d.key_salt_hex,
            d.key_nonce_hex,
            d.key_ciphertext_hex,
        ) {
            None => Err(TransferError::AuthenticationFailed),
            Some(file_key) => match artifact_decryption(d.payload, file_key) {
                Err(e) => Err(e),
                Ok(content) => Ok(
                    ReceivedModel {
                        filename: d.filename,
                        content: content,
                        digest_ok: lower_bytes(d.digest_hex) == digest_hex_of(content),
                    },
                ),
            },
        },
    }
}

/// Runs one receive worker over a connection's accumulated bytes:
/// header parse, key recovery, payload decryption, integrity check.
pub fn process_transfer(data: &[u8]) -> (r: Result<ReceivedTransfer, TransferError>)
    ensures
        match r {
            Ok(rt) => process_spec(data@) == Ok::<ReceivedModel, TransferError>(
                ReceivedModel {
                    filename: rt.filename@,
                    content: rt.content@,
                    digest_ok: rt.digest_ok,
                },
            ) && rt.computed_digest_hex@ == digest_hex_of(rt.content@),
            Err(e) => process_spec(data@) == Err::<ReceivedModel, TransferError>(e),
        },
{
    let (header, payload) = match decode_transfer(data) {
        Ok(v) => v,
        Err(e) => {
            return Err(e);
        },
    };
    let file_key = match decrypt_data(
        header.envelope_key.as_slice(),
        header.key_salt_hex.as_slice(),
        header.key_nonce_hex.as_slice(),
        header.key_ciphertext_hex.as_slice(),
    ) {
        Ok(v) => v,
        Err(e) => {
            return Err(e);
        },
    };
    let content = match decrypt_artifact(payload.as_slice(), file_key.as_slice()) {
        Ok(v) => v,
        Err(e) => {
            return Err(e);
        },
    };
    let computed_digest_hex = digest_bytes(content.as_slice());
    let digest_ok = digest_matches(header.digest_hex.as_slice(), computed_digest_hex.as_slice());
    Ok(
        ReceivedTransfer {
            filename: header.filename,
            content,
            computed_digest_hex,
            digest_ok,
        },
    )
}

/// Everything the send side prepares before it touches the transport:
/// the header and the encrypted payload artifact it will stream.
#[derive(Debug)]
pub struct TransferPlan {
    /// The header to frame ahead of the payload.
    pub header: TransferHeader,
    /// The encrypted artifact (`salt || nonce || ciphertext+tag`) that is
    /// written to the transient file and then streamed as the payload.
    pub artifact: Vec<u8>,
    /// The fresh secret the file content was encrypted under.
    pub file_key: Vec<u8>,
}

/// The sender pipeline: digest the content, draw a fresh file key and
/// envelope key, encrypt the content into an artifact, wrap the file key,
/// and build the header.  The plan is owed whenever the filename fits the
/// length prefix and the content fits one cipher message; processing the
/// encoded header followed by the artifact recovers exactly the filename
/// and content with a passing integrity check.
pub fn prepare_transfer(filename: &[u8], content: &[u8]) -> (r: Result<TransferPlan, TransferError>)
    ensures
        filename@.len() <= 0xffffffff && content@.len() <= GCM_MAX_PLAINTEXT ==> r is Ok,
        r matches Ok(p) ==> p.header.wf() && p.header.filename@ == filename@
            && p.header.digest_hex@ == digest_hex_of(content@) && artifact_decryption(
            p.artifact@,
            p.file_key@,
        ) == Ok::<Seq<u8>, TransferError>(content@) && decrypt_data_spec(
            p.header.envelope_key@,
            p.header.key_salt_hex@,
            p.header.key_nonce_hex@,
            p.header.key_ciphertext_hex@,
        ) == Some(p.file_key@) && process_spec(p.header.encoding() + p.artifact@) == Ok::<
            ReceivedModel,
            TransferError,
        >(ReceivedModel { filename: filename@, content: content@, digest_ok: true }),
        r matches Err(e) ==> (e == TransferError::FilenameTooLong && filename@.len() > 0xffffffff)
            || (e == TransferError::PayloadTooLarge && content@.len() > GCM_MAX_PLAINTEXT),
{
    if filename.len() as u64 > 0xffffffff {
        return Err(TransferError::FilenameTooLong);
    }
    let digest_hex = digest_bytes(content);
    let file_key = generate_secret();
    let envelope_key = generate_secret();
    let artifact = match encrypt_artifact(content, file_key.as_slice()) {
        Ok(a) => a,
        Err(e) => {
            return Err(e);
        },
    };
    let (key_salt_hex, key_nonce_hex, key_ciphertext_hex) = match encrypt_data(
        envelope_key.as_slice(),
        file_key.as_slice(),
    ) {
        Ok(v) => v,
        Err(e) => {
            proof {
                assert(false);
            }
            return Err(e);
        },
    };
    let header = TransferHeader {
        filename: slice_to_vec(filename),
        digest_hex,
        key_salt_hex,
        key_nonce_hex,
        key_ciphertext_hex,
        envelope_key,
    };
    proof {
        lemma_hex_encoding_lowercase(crate::primitives::sha256_of(content@));
        lemma_transfer_round_trip(header, artifact@, file_key@, content@);
    }
    Ok(TransferPlan { header, artifact, file_key })
}

/// End-to-end round trip law: a well-formed header whose wrapped-key
/// fields unwrap (under the transmitted envelope key) to a file key,
/// whose payload artifact decrypts under that key to some content, and
/// whose digest field lowercases to that content's digest, is processed
/// to exactly that filename and content, with the integrity check
/// passing.
pub proof fn lemma_transfer_round_trip(
    h: TransferHeader,
    artifact: Seq<u8>,
    file_key: Seq<u8>,
    content: Seq<u8>,
)
    requires
        h.wf(),
        decrypt_data_spec(h.envelope_key@, h.key_salt_hex@, h.key_nonce_hex@, h.key_ciphertext_hex@)
            == Some(file_key),
        artifact_decryption(artifact, file_key) == Ok::<Seq<u8>, TransferError>(content),
        lower_bytes(h.digest_hex@) == digest_hex_of(content),
    ensures
        process_spec(h.encoding() + artifact) == Ok::<ReceivedModel, TransferError>(
            ReceivedModel { filename: h.filename@, content: content, digest_ok: true },
        ),
{
    lemma_codec_round_trip(h, artifact);
}

} // verus!
