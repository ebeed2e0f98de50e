//! Filename collision resolver: derives a non-clobbering output name.
//!
//! When the wanted name is already taken, the peer address (colons
//! replaced by underscores) and a Unix timestamp are inserted before the
//! extension, or appended when there is none.  The existence test is the
//! caller's: it is made once, so two connections from one peer within one
//! second can still race — an accepted limitation.

use vstd::prelude::*;
use vstd::slice::{slice_subrange, slice_to_vec};

verus! {

/// ASCII code of ':'.
pub const COLON: u8 = 58;

/// ASCII code of '_'.
pub const UNDERSCORE: u8 = 95;

/// ASCII code of '.'.
pub const DOT: u8 = 46;

/// The peer address with every colon replaced by an underscore.
pub open spec fn sanitized(addr: Seq<u8>) -> Seq<u8> {
    addr.map_values(|b: u8| if b == COLON { UNDERSCORE } else { b })
}

/// The decimal digits of a number, most significant first.
pub open spec fn decimal_bytes(n: nat) -> Seq<u8>
    decreases n,
{
    if n < 10 {
        seq![(48 + n) as u8]
    } else {
        decimal_bytes(n / 10).push((48 + n % 10) as u8)
    }
}

/// A decimal rendering has at least one digit.
pub proof fn lemma_decimal_bytes_len(n: nat)
    ensures
        decimal_bytes(n).len() >= 1,
    decreases n,
{
    if n >= 10 {
        lemma_decimal_bytes_len(n / 10);
    }
}

/// Whether position `i` holds the last dot of a name.
pub open spec fn is_last_dot(s: Seq<u8>, i: int) -> bool {
    &&& 0 <= i < s.len()
    &&& s[i] == DOT
    &&& forall|j: int| i < j < s.len() ==> s[j] != DOT
}

/// The last dot position is unique.
proof fn lemma_last_dot_unique(s: Seq<u8>, i: int, j: int)
    requires
        is_last_dot(s, i),
        is_last_dot(s, j),
    ensures
        i == j,
{
}

/// The decorated name: base name with `_<peer>_<timestamp>` inserted
/// before the extension, or appended when the name has no dot.
pub open spec fn decorated_name(base: Seq<u8>, peer: Seq<u8>, ts: u64) -> Seq<u8> {
    let infix = seq![UNDERSCORE] + sanitized(peer) + seq![UNDERSCORE] + decimal_bytes(ts as nat);
    if exists|i: int| is_last_dot(base, i) {
        let i = choose|i: int| is_last_dot(base, i);
        base.subrange(0, i) + infix + base.subrange(i, base.len() as int)
    } else {
        base + infix
    }
}

/// The name a transfer is finally stored under: the base name when it is
/// still free, the decorated name when it is already taken.
pub open spec fn resolved_name(base: Seq<u8>, peer: Seq<u8>, ts: u64, occupied: bool) -> Seq<u8> {
    if occupied {
        decorated_name(base, peer, ts)
    } else {
        base
    }
}

/// Replaces every colon of a peer address with an underscore.
fn sanitize_peer(addr: &[u8]) -> (r: Vec<u8>)
    ensures
        r@ == sanitized(addr@),
{
    let mut out: Vec<u8> = Vec::new();
    let mut i: usize = 0;
    while i < addr.len()
        invariant
            i <= addr@.len(),
            out@ == sanitized(addr@).subrange(0, i as int),
        decreases addr@.len() - i,
    {
        let b = addr[i];
        if b == COLON {
            out.push(UNDERSCORE);
        } else {
            out.push(b);
        }
        i = i + 1;
        proof {
            assert(out@ =~= sanitized(addr@).subrange(0, i as int));
        }
    }
    proof {
        assert(out@ =~= sanitized(addr@));
    }
    out
}

/// Appends the decimal digits of `n`, most significant first.
fn push_decimal(out: &mut Vec<u8>, n: u64)
    ensures
        final(out)@ == old(out)@ + decimal_bytes(n as nat),
    decreases n,
{
    if n >= 10 {
        push_decimal(out, n / 10);
    }
    out.push(48 + (n % 10) as u8);
    proof {
        assert(out@ =~= old(out)@ + decimal_bytes(n as nat));
    }
}

/// The position of the last dot of a name, if any.
fn find_last_dot(s: &[u8]) -> (r: Option<usize>)
    ensures
        match r {
            Some(i) => is_last_dot(s@, i as int),
            None => forall|j: int| 0 <= j < s@.len() ==> s@[j] != DOT,
        },
{
    let mut i: usize = s.len();
    while i > 0
        invariant
            i <= s@.len(),
            forall|j: int| i <= j < s@.len() ==> s@[j] != DOT,
        decreases i,
    {
        i = i - 1;
        if s[i] == DOT {
            return Some(i);
        }
    }
    None
}

/// Resolves the output name for a transfer.  `occupied` is whether the
/// base name already exists in the output directory, tested once by the
/// caller; `ts` is the current Unix timestamp in seconds.  A free name is
/// returned unchanged; a taken one gets the sanitized peer address and
/// the timestamp spliced in ahead of its extension.
pub fn resolve_unique_name(base: &[u8], peer: &[u8], ts: u64, occupied: bool) -> (r: Vec<u8>)
    ensures
        r@ == resolved_name(base@, peer@, ts, occupied),
{
    if !occupied {
        return slice_to_vec(base);
    }
    let mut infix: Vec<u8> = Vec::new();
    infix.push(UNDERSCORE);
    let peer_clean = sanitize_peer(peer);
    infix.extend_from_slice(peer_clean.as_slice());
    infix.push(UNDERSCORE);
    push_decimal(&mut infix, ts);
    proof {
        assert(infix@ =~= seq![UNDERSCORE] + sanitized(peer@) + seq![UNDERSCORE] + decimal_bytes(
            ts as nat,
        ));
    }
    match find_last_dot(base) {
        Some(i) => {
            let mut out: Vec<u8> = Vec::new();
            out.extend_from_slice(slice_subrange(base, 0, i));
            out.extend_from_slice(infix.as_slice());
            out.extend_from_slice(slice_subrange(base, i, base.len()));
            proof {
                let k = choose|k: int| is_last_dot(base@, k);
                lemma_last_dot_unique(base@, i as int, k);
                assert(out@ =~= decorated_name(base@, peer@, ts));
            }
            out
        },
        None => {
            let mut out = slice_to_vec(base);
            out.extend_from_slice(infix.as_slice());
            proof {
                assert(!exists|k: int| is_last_dot(base@, k));
                assert(out@ =~= decorated_name(base@, peer@, ts));
            }
            out
        },
    }
}

/// Collision law: the decorated name is never the base name itself — a
/// taken name always resolves to a different one.
pub proof fn lemma_decorated_name_differs(base: Seq<u8>, peer: Seq<u8>, ts: u64)
    ensures
        decorated_name(base, peer, ts) != base,
{
    lemma_decimal_bytes_len(ts as nat);
    assert(decorated_name(base, peer, ts).len() >= base.len() + 3);
}

} // verus!
