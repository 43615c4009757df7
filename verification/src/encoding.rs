//! The SCALE binary encoding of the values that DID operations are made
//! of: little-endian integers, compact lengths, fixed-size byte strings and
//! length-prefixed sequences. Signatures are made over these bytes, so the
//! encoding fixes what a signer commits to.

use vstd::prelude::*;

verus! {

/// The `n` low-order bytes of `v`, least significant first.
pub open spec fn le_bytes(v: nat, n: nat) -> Seq<u8>
    decreases n,
{
    if n == 0 {
        Seq::empty()
    } else {
        seq![(v % 256) as u8] + le_bytes(v / 256, (n - 1) as nat)
    }
}

/// The SCALE encoding of a `u64`: eight bytes, least significant first.
pub open spec fn encode_u64(v: u64) -> Seq<u8> {
    le_bytes(v as nat, 8)
}

/// The SCALE compact encoding of a `u32`, as used for collection lengths.
///
/// Values below 2^6 take one byte, below 2^14 two bytes and below 2^30 four
/// bytes, with the mode in the two low-order bits; larger values take the
/// marker byte `0b11` followed by four bytes.
pub open spec fn encode_compact_u32(n: u32) -> Seq<u8> {
    if n < 64 {
        seq![(n * 4) as u8]
    } else if n < 16384 {
        le_bytes((n * 4 + 1) as nat, 2)
    } else if n < 1073741824 {
        le_bytes((n * 4 + 2) as nat, 4)
    } else {
        seq![3u8] + le_bytes(n as nat, 4)
    }
}

/// Appends the `n` low-order bytes of `v`, least significant first.
pub fn push_le_bytes(out: &mut Vec<u8>, v: u64, n: usize)
    requires
        n <= 8,
    ensures
        final(out)@ == old(out)@ + le_bytes(v as nat, n as nat),
{
    let mut x: u64 = v;
    let mut i: usize = 0;
    while i < n
        invariant
            i <= n <= 8,
            old(out)@ + le_bytes(v as nat, n as nat) == out@ + le_bytes(x as nat, (n - i) as nat),
        decreases n - i,
    {
        let ghost before = out@;
        let ghost rest = le_bytes((x / 256) as nat, (n - i - 1) as nat);
        let b = (x % 256) as u8;
        assert(le_bytes(x as nat, (n - i) as nat) == seq![b] + rest);
        out.push(b);
        assert(before + (seq![b] + rest) =~= out@ + rest);
        x = x / 256;
        i = i + 1;
    }
    assert(out@ + le_bytes(x as nat, 0) =~= out@);
}

/// Appends the SCALE encoding of a `u64`.
pub fn push_u64(out: &mut Vec<u8>, v: u64)
    ensures
        final(out)@ == old(out)@ + encode_u64(v),
{
    push_le_bytes(out, v, 8);
}

/// Appends the SCALE compact encoding of a collection length.
pub fn push_compact_len(out: &mut Vec<u8>, n: usize)
    requires
        n <= u32::MAX,
    ensures
        final(out)@ == old(out)@ + encode_compact_u32(n as u32),
{
    let m = n as u64;
    if m < 64 {
        out.push((m * 4) as u8);
    } else if m < 16384 {
        push_le_bytes(out, m * 4 + 1, 2);
    } else if m < 1073741824 {
        push_le_bytes(out, m * 4 + 2, 4);
    } else {
        out.push(3u8);
        let ghost mid = out@;
        push_le_bytes(out, m, 4);
        assert(out@ =~= old(out)@ + (seq![3u8] + le_bytes(m as nat, 4)));
    }
}

/// Appends a 32-byte string.
pub fn push_bytes32(out: &mut Vec<u8>, b: &[u8; 32])
    ensures
        final(out)@ == old(out)@ + b@,
{
    let ghost start = out@;
    let mut i: usize = 0;
    while i < 32
        invariant
            i <= 32,
            out@ == start + b@.take(i as int),
        decreases 32 - i,
    {
        out.push(b[i]);
        assert(b@.take(i + 1) =~= b@.take(i as int).push(b@[i as int]));
        i = i + 1;
    }
    assert(b@.take(32) =~= b@);
}

/// Appends a byte string without a length prefix.
pub fn push_slice(out: &mut Vec<u8>, b: &[u8])
    ensures
        final(out)@ == old(out)@ + b@,
{
    let ghost start = out@;
    let mut i: usize = 0;
    while i < b.len()
        invariant
            i <= b@.len(),
            out@ == start + b@.take(i as int),
        decreases b@.len() - i,
    {
        out.push(b[i]);
        assert(b@.take(i + 1) =~= b@.take(i as int).push(b@[i as int]));
        i = i + 1;
    }
    assert(b@.take(b@.len() as int) =~= b@);
}

/// Appends a byte string prefixed by its compact-encoded length, the
/// SCALE encoding of a `Vec<u8>`.
pub fn push_bytes_with_len(out: &mut Vec<u8>, b: &[u8])
    requires
        b@.len() <= u32::MAX,
    ensures
        final(out)@ == old(out)@ + encode_compact_u32(b@.len() as u32) + b@,
{
    push_compact_len(out, b.len());
    push_slice(out, b);
}

} // verus!
