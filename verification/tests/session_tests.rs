//! The per-connection pipeline, end to end over both transports'
//! byte-level behaviour, and worker isolation.

use file_transfer::codec::{accumulate_frames, encode_header, Frame};
use file_transfer::errors::TransferError;
use file_transfer::session::{prepare_transfer, process_transfer};

fn wire_of(filename: &[u8], content: &[u8]) -> Vec<u8> {
    let plan = prepare_transfer(filename, content).unwrap();
    let mut wire = encode_header(&plan.header);
    wire.extend_from_slice(&plan.artifact);
    wire
}

#[test]
fn full_transfer_round_trip() {
    let content = b"hello across the untrusted network".to_vec();
    let wire = wire_of(b"greeting.txt", &content);
    let received = process_transfer(&wire).unwrap();
    assert_eq!(received.filename, b"greeting.txt".to_vec());
    assert_eq!(received.content, content);
    assert!(received.digest_ok);
}

#[test]
fn digest_of_round_tripped_file_matches_sender_digest() {
    let content = b"integrity matters".to_vec();
    let plan = prepare_transfer(b"f.bin", &content).unwrap();
    let mut wire = encode_header(&plan.header);
    wire.extend_from_slice(&plan.artifact);
    let received = process_transfer(&wire).unwrap();
    assert_eq!(received.computed_digest_hex, plan.header.digest_hex);
}

#[test]
fn tampered_payload_fails_authentication() {
    let content = b"do not touch".to_vec();
    let mut wire = wire_of(b"f", &content);
    let last = wire.len() - 1;
    wire[last] ^= 0x40;
    let r = process_transfer(&wire);
    assert_eq!(r.unwrap_err(), TransferError::AuthenticationFailed);
}

#[test]
fn tampered_envelope_key_fails_key_recovery() {
    let content = b"sealed".to_vec();
    let plan = prepare_transfer(b"f", &content).unwrap();
    let mut header = plan.header;
    header.envelope_key[0] ^= 0x01;
    let mut wire = encode_header(&header);
    wire.extend_from_slice(&plan.artifact);
    let r = process_transfer(&wire);
    assert_eq!(r.unwrap_err(), TransferError::AuthenticationFailed);
}

#[test]
fn digest_mismatch_is_reported_not_fatal() {
    let content = b"kept on disk anyway".to_vec();
    let plan = prepare_transfer(b"f.txt", &content).unwrap();
    let mut header = plan.header;
    // Declare a digest of different content; decryption still succeeds.
    header.digest_hex = file_transfer::digest::digest_bytes(b"other content");
    let mut wire = encode_header(&header);
    wire.extend_from_slice(&plan.artifact);
    let received = process_transfer(&wire).unwrap();
    assert_eq!(received.content, content);
    assert!(!received.digest_ok);
}

#[test]
fn uppercase_declared_digest_still_matches() {
    let content = b"case folding".to_vec();
    let plan = prepare_transfer(b"f.txt", &content).unwrap();
    let mut header = plan.header;
    header.digest_hex = header.digest_hex.iter().map(|c| c.to_ascii_uppercase()).collect();
    let mut wire = encode_header(&header);
    wire.extend_from_slice(&plan.artifact);
    let received = process_transfer(&wire).unwrap();
    assert!(received.digest_ok);
}

#[test]
fn worker_isolation_between_connections() {
    // Two concurrent connections: one well-formed, one truncated.
    // Each worker processes only its own buffer; the malformed one
    // fails alone and the well-formed one completes with the content.
    let content = b"isolated delivery".to_vec();
    let good_wire = wire_of(b"good.txt", &content);
    let bad_wire = &good_wire[0..40];

    let bad = process_transfer(bad_wire);
    let good = process_transfer(&good_wire);

    assert_eq!(bad.unwrap_err(), TransferError::MalformedHeader);
    let received = good.unwrap();
    assert_eq!(received.filename, b"good.txt".to_vec());
    assert_eq!(received.content, content);
    assert!(received.digest_ok);
}

#[test]
fn message_transport_buffers_binary_frames_and_parses_fixed_layout() {
    // The message-transport receive side concatenates binary frames and
    // parses the result with the stream layout; text frames are ignored.
    let content = b"framed delivery".to_vec();
    let wire = wire_of(b"framed.bin", &content);
    let (a, rest) = wire.split_at(10);
    let (b, c) = rest.split_at(100);
    let frames = vec![
        Frame::Text(b"{\"filename\":\"framed.bin\"}".to_vec()),
        Frame::Binary(a.to_vec()),
        Frame::Binary(b.to_vec()),
        Frame::Binary(c.to_vec()),
    ];
    let buffer = accumulate_frames(&frames);
    let received = process_transfer(&buffer).unwrap();
    assert_eq!(received.filename, b"framed.bin".to_vec());
    assert_eq!(received.content, content);
    assert!(received.digest_ok);
}

#[test]
fn message_transport_text_frames_alone_are_malformed() {
    // A sender that only ever sent its structured text header leaves the
    // binary buffer empty, which the fixed layout rejects.
    let frames = vec![Frame::Text(b"{\"filename\":\"only.txt\"}".to_vec())];
    let buffer = accumulate_frames(&frames);
    let r = process_transfer(&buffer);
    assert_eq!(r.unwrap_err(), TransferError::MalformedHeader);
}

#[test]
fn empty_content_transfers() {
    let wire = wire_of(b"empty", b"");
    let received = process_transfer(&wire).unwrap();
    assert!(received.content.is_empty());
    assert!(received.digest_ok);
}
