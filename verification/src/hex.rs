//! Hexadecimal encoding and decoding of byte strings, as the wire format
//! uses it for the digest and the wrapped-key fields.  Encoding is always
//! lowercase; decoding accepts both cases.

use vstd::prelude::*;

verus! {

/// The lowercase hex digit (as an ASCII byte) for a value below 16.
pub open spec fn hex_digit(v: u8) -> u8
    recommends
        v < 16,
{
    if v < 10 {
        (48 + v) as u8
    } else {
        (87 + v) as u8
    }
}

/// The lowercase hex encoding of a byte string: two digits per byte,
/// high digit first.
pub open spec fn hex_encoding(bytes: Seq<u8>) -> Seq<u8> {
    Seq::new(
        bytes.len() * 2,
        |i: int|
            if i % 2 == 0 {
                hex_digit(bytes[i / 2] / 16)
            } else {
                hex_digit(bytes[i / 2] % 16)
            },
    )
}

/// Whether a byte is an ASCII hex digit of either case.
pub open spec fn is_hex_digit(b: u8) -> bool {
    (48 <= b <= 57) || (65 <= b <= 70) || (97 <= b <= 102)
}

/// The value of an ASCII hex digit of either case.
pub open spec fn hex_value(b: u8) -> int
    recommends
        is_hex_digit(b),
{
    if 48 <= b <= 57 {
        b - 48
    } else if 65 <= b <= 70 {
        b - 55
    } else {
        b - 87
    }
}

/// The bytes a hex string decodes to: defined exactly when the length is
/// even and every byte is a hex digit of either case.
pub open spec fn hex_decoding(h: Seq<u8>) -> Option<Seq<u8>> {
    if h.len() % 2 == 0 && (forall|i: int| 0 <= i < h.len() ==> is_hex_digit(#[trigger] h[i])) {
        Some(
            Seq::new(
                (h.len() / 2) as nat,
                |i: int| (hex_value(h[2 * i]) * 16 + hex_value(h[2 * i + 1])) as u8,
            ),
        )
    } else {
        None
    }
}

/// The lowercase hex digit byte for a value below 16.
fn hex_digit_byte(v: u8) -> (r: u8)
    requires
        v < 16,
    ensures
        r == hex_digit(v),
{
    if v < 10 {
        48 + v
    } else {
        87 + v
    }
}

/// Encodes a byte string as lowercase hex, two digits per byte.
pub fn hex_encode(bytes: &[u8]) -> (r: Vec<u8>)
    ensures
        r@ == hex_encoding(bytes@),
        r@.len() == 2 * bytes@.len(),
{
    let mut out: Vec<u8> = Vec::new();
    let mut i: usize = 0;
    while i < bytes.len()
        invariant
            i <= bytes@.len(),
            out@ == hex_encoding(bytes@).subrange(0, 2 * i as int),
        decreases bytes@.len() - i,
    {
        let b = bytes[i];
        out.push(hex_digit_byte(b / 16));
        out.push(hex_digit_byte(b % 16));
        i = i + 1;
        proof {
            assert(out@ =~= hex_encoding(bytes@).subrange(0, 2 * i as int));
        }
    }
    proof {
        assert(out@ =~= hex_encoding(bytes@));
    }
    out
}

/// The value of a hex digit byte, or `None` if it is not one.
fn hex_value_byte(b: u8) -> (r: Option<u8>)
    ensures
        match r {
            Some(v) => is_hex_digit(b) && v == hex_value(b),
            None => !is_hex_digit(b),
        },
{
    if 48 <= b && b <= 57 {
        Some(b - 48)
    } else if 65 <= b && b <= 70 {
        Some(b - 55)
    } else if 97 <= b && b <= 102 {
        Some(b - 87)
    } else {
        None
    }
}

/// Decodes a hex string of either case; `None` exactly on an odd length
/// or a byte that is no hex digit.
pub fn hex_decode(h: &[u8]) -> (r: Option<Vec<u8>>)
    ensures
        match r {
            Some(v) => hex_decoding(h@) == Some(v@),
            None => hex_decoding(h@) is None,
        },
{
    if h.len() % 2 != 0 {
        return None;
    }
    let mut out: Vec<u8> = Vec::new();
    let mut i: usize = 0;
    while i < h.len()
        invariant
            i <= h@.len(),
            i % 2 == 0,
            h@.len() % 2 == 0,
            out@.len() == i / 2,
            forall|j: int| 0 <= j < i ==> is_hex_digit(#[trigger] h@[j]),
            forall|j: int|
                0 <= j < out@.len() ==> #[trigger] out@[j] == (hex_value(h@[2 * j]) * 16
                    + hex_value(h@[2 * j + 1])) as u8,
        decreases h@.len() - i,
    {
        let hi = match hex_value_byte(h[i]) {
            Some(v) => v,
            None => {
                return None;
            },
        };
        let lo = match hex_value_byte(h[i + 1]) {
            Some(v) => v,
            None => {
                return None;
            },
        };
        out.push(hi * 16 + lo);
        i = i + 2;
    }
    proof {
        let d = hex_decoding(h@)->Some_0;
        assert(out@ =~= d);
    }
    Some(out)
}

/// Encoding then decoding gives the bytes back.
pub proof fn lemma_hex_round_trip(bytes: Seq<u8>)
    ensures
        hex_decoding(hex_encoding(bytes)) == Some(bytes),
{
    let h = hex_encoding(bytes);
    assert forall|i: int| 0 <= i < h.len() implies is_hex_digit(#[trigger] h[i]) by {
        assert(0 <= bytes[i / 2] / 16 < 16);
        assert(0 <= bytes[i / 2] % 16 < 16);
    }
    let d = hex_decoding(h)->Some_0;
    assert forall|j: int| 0 <= j < d.len() implies #[trigger] d[j] == bytes[j] by {
        assert(h[2 * j] == hex_digit(bytes[j] / 16));
        assert(h[2 * j + 1] == hex_digit(bytes[j] % 16));
        assert(hex_value(hex_digit(bytes[j] / 16)) == bytes[j] / 16);
        assert(hex_value(hex_digit(bytes[j] % 16)) == bytes[j] % 16);
        assert(bytes[j] / 16 * 16 + bytes[j] % 16 == bytes[j]);
    }
    assert(d =~= bytes);
}

} // verus!
