//! Verified core of a single-file transfer service.
//!
//! A sender digests a file, encrypts it under a fresh file key, wraps that
//! key under a second envelope key, and frames everything behind a
//! fixed-layout header.  A receiver recovers the header, unwraps the keys,
//! decrypts the payload and checks the digest.  This crate holds the
//! protocol codec, the envelope-encryption engine, the integrity check,
//! the filename collision resolver, the per-connection pipeline and the
//! progress notifier model; sockets, files and the async runtime live
//! outside it.

pub mod codec;
pub mod digest;
pub mod envelope;
pub mod errors;
pub mod hex;
pub mod names;
pub mod notify;
pub mod primitives;
pub mod session;
