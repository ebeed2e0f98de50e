//! Round-trip and failure behaviour of the envelope encryption engine.

use file_transfer::envelope::{
    decrypt_artifact, decrypt_data, derive_key, encrypt_artifact, encrypt_data, generate_secret,
};
use file_transfer::errors::TransferError;

#[test]
fn artifact_round_trip_byte_for_byte() {
    let content = b"the quick brown fox jumps over the lazy dog".to_vec();
    let secret = b"0123456789abcdef".to_vec();
    let artifact = encrypt_artifact(&content, &secret).unwrap();
    assert_eq!(artifact.len(), content.len() + 44);
    let recovered = decrypt_artifact(&artifact, &secret).unwrap();
    assert_eq!(recovered, content);
}

#[test]
fn artifact_round_trip_empty_file() {
    let content: Vec<u8> = Vec::new();
    let secret = b"abcdefghij012345".to_vec();
    let artifact = encrypt_artifact(&content, &secret).unwrap();
    assert_eq!(artifact.len(), 44);
    let recovered = decrypt_artifact(&artifact, &secret).unwrap();
    assert_eq!(recovered, content);
}

#[test]
fn decrypt_with_wrong_secret_fails() {
    let content = b"payload bytes".to_vec();
    let secret = b"correct-secret-1".to_vec();
    let other = b"wrong-secret-111".to_vec();
    let artifact = encrypt_artifact(&content, &secret).unwrap();
    let r = decrypt_artifact(&artifact, &other);
    assert_eq!(r, Err(TransferError::AuthenticationFailed));
}

#[test]
fn decrypt_corrupted_ciphertext_fails() {
    let content = b"payload bytes".to_vec();
    let secret = b"correct-secret-1".to_vec();
    let mut artifact = encrypt_artifact(&content, &secret).unwrap();
    let last = artifact.len() - 1;
    artifact[last] ^= 0x01;
    let r = decrypt_artifact(&artifact, &secret);
    assert_eq!(r, Err(TransferError::AuthenticationFailed));
}

#[test]
fn decrypt_corrupted_body_fails() {
    let content = b"payload bytes".to_vec();
    let secret = b"correct-secret-1".to_vec();
    let mut artifact = encrypt_artifact(&content, &secret).unwrap();
    artifact[30] ^= 0x80;
    let r = decrypt_artifact(&artifact, &secret);
    assert_eq!(r, Err(TransferError::AuthenticationFailed));
}

#[test]
fn short_artifact_is_a_format_error() {
    let secret = b"correct-secret-1".to_vec();
    let artifact = vec![0u8; 27];
    let r = decrypt_artifact(&artifact, &secret);
    assert_eq!(r, Err(TransferError::MalformedArtifact));
}

#[test]
fn wrapped_key_round_trip() {
    let secret = b"envelope-secret1".to_vec();
    let plaintext = b"filekey-filekey1".to_vec();
    let (salt_hex, nonce_hex, ct_hex) = encrypt_data(&secret, &plaintext).unwrap();
    assert_eq!(salt_hex.len(), 32);
    assert_eq!(nonce_hex.len(), 24);
    assert_eq!(ct_hex.len(), 64);
    let recovered = decrypt_data(&secret, &salt_hex, &nonce_hex, &ct_hex).unwrap();
    assert_eq!(recovered, plaintext);
}

#[test]
fn wrapped_key_wrong_secret_fails() {
    let secret = b"envelope-secret1".to_vec();
    let plaintext = b"filekey-filekey1".to_vec();
    let (salt_hex, nonce_hex, ct_hex) = encrypt_data(&secret, &plaintext).unwrap();
    let r = decrypt_data(b"some-other-key00", &salt_hex, &nonce_hex, &ct_hex);
    assert_eq!(r, Err(TransferError::AuthenticationFailed));
}

#[test]
fn wrapped_key_malformed_hex_fails_closed() {
    let secret = b"envelope-secret1".to_vec();
    let r = decrypt_data(&secret, b"zz", b"22", b"33");
    assert_eq!(r, Err(TransferError::AuthenticationFailed));
    let r = decrypt_data(&secret, b"111", b"22", b"33");
    assert_eq!(r, Err(TransferError::AuthenticationFailed));
}

#[test]
fn generated_secrets_are_alphanumeric_and_distinct() {
    let a = generate_secret();
    let b = generate_secret();
    assert_eq!(a.len(), 16);
    assert_eq!(b.len(), 16);
    assert!(a.iter().all(|c| c.is_ascii_alphanumeric()));
    assert!(b.iter().all(|c| c.is_ascii_alphanumeric()));
    assert_ne!(a, b);
}

#[test]
fn derived_key_is_deterministic() {
    let k1 = derive_key(b"secret", b"0123456789abcdef");
    let k2 = derive_key(b"secret", b"0123456789abcdef");
    let k3 = derive_key(b"secret", b"0123456789abcdeg");
    assert_eq!(k1.len(), 32);
    assert_eq!(k1, k2);
    assert_ne!(k1, k3);
}
