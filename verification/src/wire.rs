//! Byte-level helpers shared by the wire formats: big-endian integers and
//! copies between byte strings.

use vstd::prelude::*;

verus! {

/// The two bytes of `value`, most significant first.
pub open spec fn be16(value: u16) -> Seq<u8> {
    seq![(value / 256) as u8, (value % 256) as u8]
}

/// The integer whose big-endian bytes are `hi`, `lo`.
pub open spec fn from_be16(hi: u8, lo: u8) -> u16 {
    (hi * 256 + lo) as u16
}

/// The four bytes of `value`, most significant first.
pub open spec fn be32(value: u32) -> Seq<u8> {
    seq![
        (value / 0x100_0000) as u8,
        ((value / 0x1_0000) % 256) as u8,
        ((value / 0x100) % 256) as u8,
        (value % 256) as u8,
    ]
}

/// The eight bytes of `value`, most significant first.
pub open spec fn be64(value: u64) -> Seq<u8> {
    be32((value / 0x1_0000_0000) as u32) + be32((value % 0x1_0000_0000) as u32)
}

/// A byte string of `n` zeros.
pub open spec fn zeros(n: nat) -> Seq<u8> {
    Seq::new(n, |i: int| 0u8)
}

/// Reading what `be16` wrote gives the value back, and writing what was
/// read gives the bytes back.
pub proof fn be16_round_trip(value: u16, hi: u8, lo: u8)
    ensures
        from_be16(be16(value)[0], be16(value)[1]) == value,
        be16(from_be16(hi, lo)) == seq![hi, lo],
{
}

/// Appends the big-endian bytes of `value` to `out`.
pub(crate) fn push_be16(out: &mut Vec<u8>, value: u16)
    ensures
        final(out)@ == old(out)@ + be16(value),
{
    out.push((value / 256) as u8);
    out.push((value % 256) as u8);
}

/// Appends the big-endian bytes of `value` to `out`.
pub(crate) fn push_be32(out: &mut Vec<u8>, value: u32)
    ensures
        final(out)@ == old(out)@ + be32(value),
{
    out.push((value / 0x100_0000) as u8);
    out.push(((value / 0x1_0000) % 256) as u8);
    out.push(((value / 0x100) % 256) as u8);
    out.push((value % 256) as u8);
    assert(out@ =~= old(out)@ + be32(value));
}

/// Appends the big-endian bytes of `value` to `out`.
pub(crate) fn push_be64(out: &mut Vec<u8>, value: u64)
    ensures
        final(out)@ == old(out)@ + be64(value),
{
    push_be32(out, (value / 0x1_0000_0000) as u32);
    push_be32(out, (value % 0x1_0000_0000) as u32);
    assert(out@ =~= old(out)@ + be64(value));
}

/// Reads a big-endian integer from two bytes.
pub(crate) fn read_be16(hi: u8, lo: u8) -> (value: u16)
    ensures
        value == from_be16(hi, lo),
{
    (hi as u16) * 256 + (lo as u16)
}

/// Appends `bytes` to `out`.
pub(crate) fn append(out: &mut Vec<u8>, bytes: &[u8])
    ensures
        final(out)@ == old(out)@ + bytes@,
{
    let mut k: usize = 0;
    while k < bytes.len()
        invariant
            k <= bytes.len(),
            out@ == old(out)@ + bytes@.subrange(0, k as int),
        decreases bytes.len() - k,
    {
        out.push(bytes[k]);
        k = k + 1;
    }
    proof {
        assert(bytes@.subrange(0, k as int) == bytes@);
    }
}

/// Copies the bytes of `bytes` from index `from` up to, not including, `to`.
pub(crate) fn copy_range(bytes: &[u8], from: usize, to: usize) -> (copy: Vec<u8>)
    requires
        from <= to <= bytes@.len(),
    ensures
        copy@ == bytes@.subrange(from as int, to as int),
{
    let mut copy: Vec<u8> = Vec::new();
    let mut k: usize = from;
    while k < to
        invariant
            from <= k <= to <= bytes@.len(),
            copy@ == bytes@.subrange(from as int, k as int),
        decreases to - k,
    {
        copy.push(bytes[k]);
        k = k + 1;
    }
    copy
}

/// Copies the first eight bytes of `bytes`.
pub(crate) fn first_eight(bytes: &[u8]) -> (head: [u8; 8])
    requires
        bytes@.len() >= 8,
    ensures
        head@ == bytes@.subrange(0, 8),
{
    let mut head = [0u8; 8];
    let mut k: usize = 0;
    while k < 8
        invariant
            k <= 8,
            bytes@.len() >= 8,
            forall|j: int| 0 <= j < k ==> head@[j] == bytes@[j],
        decreases 8 - k,
    {
        head[k] = bytes[k];
        k = k + 1;
    }
    assert(head@ =~= bytes@.subrange(0, 8));
    head
}

} // verus!
