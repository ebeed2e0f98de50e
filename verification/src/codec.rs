//! Protocol codec for the fixed-layout transfer header.
//!
//! Wire layout, in order: a big-endian 32-bit filename length, the
//! filename bytes, 64 bytes of digest hex, 32 bytes of salt hex, 24 bytes
//! of nonce hex, 64 bytes of wrapped-key hex, the 16 raw envelope-key
//! bytes, and then every remaining byte is encrypted payload.  Widths
//! alone define the field boundaries; a buffer short of them is rejected
//! as a malformed header, never parsed partially.
//!
//! The message transport accumulates binary frames and parses the
//! accumulated bytes with this same fixed-offset layout; its sender emits
//! a structured text frame first, which the receive side deliberately
//! ignores.  The two sides of that transport therefore do not agree; the
//! deployed protocol behaves this way, so it is kept for wire
//! compatibility rather than repaired.

use crate::errors::TransferError;
use vstd::prelude::*;
use vstd::slice::{slice_subrange, slice_to_vec};

verus! {

/// Bytes of the filename length prefix.
pub const LEN_PREFIX_LEN: usize = 4;

/// Bytes of the digest hex field.
pub const DIGEST_FIELD_LEN: usize = 64;

/// Bytes of the salt hex field.
pub const SALT_FIELD_LEN: usize = 32;

/// Bytes of the nonce hex field.
pub const NONCE_FIELD_LEN: usize = 24;

/// Bytes of the wrapped-key hex field.
pub const KEY_CT_FIELD_LEN: usize = 64;

/// Bytes of the raw envelope-key field.
pub const ENVELOPE_KEY_LEN: usize = 16;

/// Bytes of all fixed-width fields after the filename.
pub const FIXED_TAIL_LEN: usize = DIGEST_FIELD_LEN + SALT_FIELD_LEN + NONCE_FIELD_LEN
    + KEY_CT_FIELD_LEN + ENVELOPE_KEY_LEN;

/// The four big-endian bytes of a 32-bit value.
pub open spec fn be32_bytes(n: u32) -> Seq<u8> {
    seq![
        ((n >> 24) & 0xff) as u8,
        ((n >> 16) & 0xff) as u8,
        ((n >> 8) & 0xff) as u8,
        (n & 0xff) as u8,
    ]
}

/// The 32-bit value four big-endian bytes carry.
pub open spec fn be32_value(s: Seq<u8>) -> u32
    recommends
        s.len() == 4,
{
    ((s[0] as u32) << 24) | ((s[1] as u32) << 16) | ((s[2] as u32) << 8) | (s[3] as u32)
}

/// Writing a 32-bit value big-endian and reading it back is the identity.
pub proof fn lemma_be32_round_trip(n: u32)
    ensures
        be32_value(be32_bytes(n)) == n,
{
    assert((((n >> 24) & 0xff) << 24) | (((n >> 16) & 0xff) << 16) | (((n >> 8) & 0xff) << 8) | (n
        & 0xff) == n) by (bit_vector);
    assert((n >> 24) & 0xff < 256 && (n >> 16) & 0xff < 256 && (n >> 8) & 0xff < 256 && n & 0xff
        < 256) by (bit_vector);
}

/// The protocol envelope carried ahead of the payload.
#[derive(Debug)]
pub struct TransferHeader {
    /// Filename bytes, length-prefixed on the wire.
    pub filename: Vec<u8>,
    /// 64 hex digits: SHA-256 of the original plaintext file.
    pub digest_hex: Vec<u8>,
    /// 32 hex digits: the salt the file key was wrapped with.
    pub key_salt_hex: Vec<u8>,
    /// 24 hex digits: the nonce the file key was wrapped with.
    pub key_nonce_hex: Vec<u8>,
    /// 64 hex digits: the wrapped file key with its tag.
    pub key_ciphertext_hex: Vec<u8>,
    /// 16 raw bytes: the envelope key, transmitted verbatim.
    pub envelope_key: Vec<u8>,
}

impl TransferHeader {
    /// Every fixed field has its exact wire width and the filename fits
    /// the 32-bit length prefix.
    pub open spec fn wf(self) -> bool {
        &&& self.filename@.len() <= 0xffffffff
        &&& self.digest_hex@.len() == DIGEST_FIELD_LEN
        &&& self.key_salt_hex@.len() == SALT_FIELD_LEN
        &&& self.key_nonce_hex@.len() == NONCE_FIELD_LEN
        &&& self.key_ciphertext_hex@.len() == KEY_CT_FIELD_LEN
        &&& self.envelope_key@.len() == ENVELOPE_KEY_LEN
    }

    /// The header's wire bytes.
    pub open spec fn encoding(self) -> Seq<u8> {
        be32_bytes(self.filename@.len() as u32) + self.filename@ + self.digest_hex@
            + self.key_salt_hex@ + self.key_nonce_hex@ + self.key_ciphertext_hex@
            + self.envelope_key@
    }
}

/// The fields a byte stream decodes to, as mathematical values.
#[verifier::ext_equal]
pub ghost struct DecodedTransfer {
    pub filename: Seq<u8>,
    pub digest_hex: Seq<u8>,
    pub key_salt_hex: Seq<u8>,
    pub key_nonce_hex: Seq<u8>,
    pub key_ciphertext_hex: Seq<u8>,
    pub envelope_key: Seq<u8>,
    pub payload: Seq<u8>,
}

/// What a byte stream decodes to under the fixed-offset layout: the header
/// fields and the remaining payload, or nothing when the stream is shorter
/// than the widths demand.
pub open spec fn decode_spec(data: Seq<u8>) -> Option<DecodedTransfer> {
    if data.len() < 4 {
        None
    } else {
        let flen = be32_value(data.subrange(0, 4)) as int;
        if data.len() < 4 + flen + FIXED_TAIL_LEN {
            None
        } else {
            let o = 4 + flen;
            Some(
                DecodedTransfer {
                    filename: data.subrange(4, o),
                    digest_hex: data.subrange(o, o + 64),
                    key_salt_hex: data.subrange(o + 64, o + 96),
                    key_nonce_hex: data.subrange(o + 96, o + 120),
                    key_ciphertext_hex: data.subrange(o + 120, o + 184),
                    envelope_key: data.subrange(o + 184, o + 200),
                    payload: data.subrange(o + 200, data.len() as int),
                },
            )
        }
    }
}

/// Encodes a well-formed header into its wire bytes.
pub fn encode_header(h: &TransferHeader) -> (r: Vec<u8>)
    requires
        h.wf(),
    ensures
        r@ == h.encoding(),
{
    let flen = h.filename.len() as u32;
    let mut out: Vec<u8> = Vec::new();
    proof {
        assert((flen >> 24) & 0xff < 256 && (flen >> 16) & 0xff < 256 && (flen >> 8) & 0xff < 256
            && flen & 0xff < 256) by (bit_vector);
    }
    out.push(((flen >> 24) & 0xff) as u8);
    out.push(((flen >> 16) & 0xff) as u8);
    out.push(((flen >> 8) & 0xff) as u8);
    out.push((flen & 0xff) as u8);
    out.extend_from_slice(h.filename.as_slice());
    out.extend_from_slice(h.digest_hex.as_slice());
    out.extend_from_slice(h.key_salt_hex.as_slice());
    out.extend_from_slice(h.key_nonce_hex.as_slice());
    out.extend_from_slice(h.key_ciphertext_hex.as_slice());
    out.extend_from_slice(h.envelope_key.as_slice());
    proof {
        assert(out@ =~= h.encoding());
    }
    out
}

/// Reads four big-endian bytes as a 32-bit value.
fn read_be32(b: &[u8]) -> (n: u32)
    requires
        b@.len() == 4,
    ensures
        n == be32_value(b@),
{
    ((b[0] as u32) << 24) | ((b[1] as u32) << 16) | ((b[2] as u32) << 8) | (b[3] as u32)
}

/// Decodes a byte stream into the header and the payload behind it.
/// A stream short of the fixed widths is a malformed header, and nothing
/// is consumed from it.
pub fn decode_transfer(data: &[u8]) -> (r: Result<(TransferHeader, Vec<u8>), TransferError>)
    ensures
        match r {
            Ok((h, p)) => h.wf() && decode_spec(data@) == Some(
                DecodedTransfer {
                    filename: h.filename@,
                    digest_hex: h.digest_hex@,
                    key_salt_hex: h.key_salt_hex@,
                    key_nonce_hex: h.key_nonce_hex@,
                    key_ciphertext_hex: h.key_ciphertext_hex@,
                    envelope_key: h.envelope_key@,
                    payload: p@,
                },
            ),
            Err(e) => e == TransferError::MalformedHeader && decode_spec(data@) is None,
        },
{
    if data.len() < LEN_PREFIX_LEN {
        return Err(TransferError::MalformedHeader);
    }
    let flen = read_be32(slice_subrange(data, 0, 4)) as usize;
    if data.len() - 4 < flen {
        return Err(TransferError::MalformedHeader);
    }
    if data.len() - 4 - flen < FIXED_TAIL_LEN {
        return Err(TransferError::MalformedHeader);
    }
    let o = 4 + flen;
    let filename = slice_to_vec(slice_subrange(data, 4, o));
    let digest_hex = slice_to_vec(slice_subrange(data, o, o + 64));
    let key_salt_hex = slice_to_vec(slice_subrange(data, o + 64, o + 96));
    let key_nonce_hex = slice_to_vec(slice_subrange(data, o + 96, o + 120));
    let key_ciphertext_hex = slice_to_vec(slice_subrange(data, o + 120, o + 184));
    let envelope_key = slice_to_vec(slice_subrange(data, o + 184, o + 200));
    let payload = slice_to_vec(slice_subrange(data, o + 200, data.len()));
    let header = TransferHeader {
        filename,
        digest_hex,
        key_salt_hex,
        key_nonce_hex,
        key_ciphertext_hex,
        envelope_key,
    };
    Ok((header, payload))
}

/// Codec round trip: a well-formed header followed by any payload decodes
/// back to exactly its field values and that payload.
pub proof fn lemma_codec_round_trip(h: TransferHeader, payload: Seq<u8>)
    requires
        h.wf(),
    ensures
        decode_spec(h.encoding() + payload) == Some(
            DecodedTransfer {
                filename: h.filename@,
                digest_hex: h.digest_hex@,
                key_salt_hex: h.key_salt_hex@,
                key_nonce_hex: h.key_nonce_hex@,
                key_ciphertext_hex: h.key_ciphertext_hex@,
                envelope_key: h.envelope_key@,
                payload: payload,
            },
        ),
{
    let data = h.encoding() + payload;
    let flen = h.filename@.len() as u32;
    lemma_be32_round_trip(flen);
    assert(data.subrange(0, 4) =~= be32_bytes(flen));
    let o = 4 + flen as int;
    assert(data.subrange(4, o) =~= h.filename@);
    assert(data.subrange(o, o + 64) =~= h.digest_hex@);
    assert(data.subrange(o + 64, o + 96) =~= h.key_salt_hex@);
    assert(data.subrange(o + 96, o + 120) =~= h.key_nonce_hex@);
    assert(data.subrange(o + 120, o + 184) =~= h.key_ciphertext_hex@);
    assert(data.subrange(o + 184, o + 200) =~= h.envelope_key@);
    assert(data.subrange(o + 200, data.len() as int) =~= payload);
    assert(decode_spec(data) =~~= Some(
        DecodedTransfer {
            filename: h.filename@,
            digest_hex: h.digest_hex@,
            key_salt_hex: h.key_salt_hex@,
            key_nonce_hex: h.key_nonce_hex@,
            key_ciphertext_hex: h.key_ciphertext_hex@,
            envelope_key: h.envelope_key@,
            payload: payload,
        },
    ));
}

/// A frame of the message transport: either a structured text frame or a
/// binary payload frame.
#[derive(Debug)]
pub enum Frame {
    /// A text frame; the receive side of the transport ignores these.
    Text(Vec<u8>),
    /// A binary frame carrying part of the payload byte stream.
    Binary(Vec<u8>),
}

/// The bytes one frame contributes to the accumulated buffer.
pub open spec fn frame_bytes(f: Frame) -> Seq<u8> {
    match f {
        Frame::Binary(b) => b@,
        Frame::Text(_) => Seq::empty(),
    }
}

/// The concatenation of all binary frames, in order.
pub open spec fn binary_concat(frames: Seq<Frame>) -> Seq<u8>
    decreases frames.len(),
{
    if frames.len() == 0 {
        Seq::empty()
    } else {
        binary_concat(frames.drop_last()) + frame_bytes(frames.last())
    }
}

/// Accumulates the binary frames of a message stream into one buffer,
/// dropping text frames, as the receive side of the message transport
/// does before it parses the fixed-offset layout.
pub fn accumulate_frames(frames: &Vec<Frame>) -> (r: Vec<u8>)
    ensures
        r@ == binary_concat(frames@),
{
    let mut out: Vec<u8> = Vec::new();
    let mut i: usize = 0;
    while i < frames.len()
        invariant
            i <= frames@.len(),
            out@ == binary_concat(frames@.take(i as int)),
        decreases frames@.len() - i,
    {
        match &frames[i] {
            Frame::Binary(b) => {
                out.extend_from_slice(b.as_slice());
            },
            Frame::Text(_) => {
            },
        }
        i = i + 1;
        proof {
            assert(frames@.take(i as int).drop_last() =~= frames@.take(i as int - 1));
            assert(frames@.take(i as int).last() == frames@[i as int - 1]);
            assert(out@ =~= binary_concat(frames@.take(i as int)));
        }
    }
    proof {
        assert(frames@.take(frames@.len() as int) =~= frames@);
    }
    out
}

} // verus!
