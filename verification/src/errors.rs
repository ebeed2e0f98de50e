use vstd::prelude::*;

verus! {

/// Failure classes of the transfer pipeline.
///
/// Transport and filesystem failures are handled by the embedding program;
/// the verified pipeline itself can only fail in one of these ways.
#[derive(Clone, Copy, Debug, PartialEq, Eq, Structural)]
pub enum TransferError {
    /// The byte stream is too short for the fixed-width header layout.
    MalformedHeader,
    /// An encrypted artifact is shorter than its salt and nonce prefix.
    MalformedArtifact,
    /// Authenticated decryption failed: wrong key, corrupted data, or a
    /// malformed hex field.  Never yields partial plaintext.
    AuthenticationFailed,
    /// A filename too long for the 32-bit length prefix of the wire format.
    FilenameTooLong,
    /// A payload beyond the single-message limit of the cipher.
    PayloadTooLarge,
}

} // verus!
