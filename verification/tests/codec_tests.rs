//! Wire-format codec behaviour: the fixed-offset layout and the frame
//! accumulation of the message transport.

use file_transfer::codec::{accumulate_frames, decode_transfer, encode_header, Frame, TransferHeader};
use file_transfer::errors::TransferError;

fn sample_header() -> TransferHeader {
    TransferHeader {
        filename: b"a.txt".to_vec(),
        digest_hex: b"0".repeat(64).to_vec(),
        key_salt_hex: b"1".repeat(32).to_vec(),
        key_nonce_hex: b"2".repeat(24).to_vec(),
        key_ciphertext_hex: b"3".repeat(64).to_vec(),
        envelope_key: b"abcdefghij012345".to_vec(),
    }
}

#[test]
fn header_codec_round_trip() {
    let header = sample_header();
    let payload = b"opaque payload bytes".to_vec();
    let mut wire = encode_header(&header);
    wire.extend_from_slice(&payload);
    let (decoded, rest) = decode_transfer(&wire).unwrap();
    assert_eq!(decoded.filename, b"a.txt".to_vec());
    assert_eq!(decoded.digest_hex, b"0".repeat(64));
    assert_eq!(decoded.key_salt_hex, b"1".repeat(32));
    assert_eq!(decoded.key_nonce_hex, b"2".repeat(24));
    assert_eq!(decoded.key_ciphertext_hex, b"3".repeat(64));
    assert_eq!(decoded.envelope_key, b"abcdefghij012345".to_vec());
    assert_eq!(rest, payload);
}

#[test]
fn header_codec_round_trip_empty_payload() {
    let header = sample_header();
    let wire = encode_header(&header);
    let (decoded, rest) = decode_transfer(&wire).unwrap();
    assert_eq!(decoded.filename, b"a.txt".to_vec());
    assert!(rest.is_empty());
}

#[test]
fn encoded_layout_is_exact() {
    let header = sample_header();
    let wire = encode_header(&header);
    assert_eq!(wire.len(), 4 + 5 + 64 + 32 + 24 + 64 + 16);
    assert_eq!(&wire[0..4], &[0, 0, 0, 5]);
    assert_eq!(&wire[4..9], b"a.txt");
    assert_eq!(&wire[9..73], b"0".repeat(64).as_slice());
    assert_eq!(&wire[193..209], b"abcdefghij012345");
}

#[test]
fn hand_built_wire_buffer_decodes_field_by_field() {
    let mut wire = vec![0u8, 0, 0, 1];
    wire.push(b'x');
    wire.extend_from_slice(&b"4".repeat(64));
    wire.extend_from_slice(&b"5".repeat(32));
    wire.extend_from_slice(&b"6".repeat(24));
    wire.extend_from_slice(&b"7".repeat(64));
    wire.extend_from_slice(b"0123456789abcdef");
    wire.extend_from_slice(b"PAY");
    let (decoded, rest) = decode_transfer(&wire).unwrap();
    assert_eq!(decoded.filename, b"x".to_vec());
    assert_eq!(decoded.digest_hex, b"4".repeat(64));
    assert_eq!(decoded.key_salt_hex, b"5".repeat(32));
    assert_eq!(decoded.key_nonce_hex, b"6".repeat(24));
    assert_eq!(decoded.key_ciphertext_hex, b"7".repeat(64));
    assert_eq!(decoded.envelope_key, b"0123456789abcdef".to_vec());
    assert_eq!(rest, b"PAY".to_vec());
}

#[test]
fn truncated_header_is_malformed() {
    let header = sample_header();
    let wire = encode_header(&header);
    for cut in [0, 3, 10, wire.len() - 1] {
        let r = decode_transfer(&wire[0..cut]);
        assert_eq!(r.unwrap_err(), TransferError::MalformedHeader);
    }
}

#[test]
fn declared_filename_longer_than_stream_is_malformed() {
    // Length prefix says 100 bytes of filename, but few follow.
    let mut wire = vec![0u8, 0, 0, 100];
    wire.extend_from_slice(b"short");
    let r = decode_transfer(&wire);
    assert_eq!(r.unwrap_err(), TransferError::MalformedHeader);
}

#[test]
fn accumulation_keeps_binary_frames_in_order_and_drops_text() {
    let frames = vec![
        Frame::Text(b"{\"filename\":\"ignored\"}".to_vec()),
        Frame::Binary(b"abc".to_vec()),
        Frame::Text(b"also ignored".to_vec()),
        Frame::Binary(b"def".to_vec()),
        Frame::Binary(b"".to_vec()),
        Frame::Binary(b"g".to_vec()),
    ];
    let buf = accumulate_frames(&frames);
    assert_eq!(buf, b"abcdefg".to_vec());
}

#[test]
fn accumulation_of_no_frames_is_empty() {
    let frames: Vec<Frame> = Vec::new();
    assert!(accumulate_frames(&frames).is_empty());
}
