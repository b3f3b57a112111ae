//! Little-endian integer fields and reserved (zero) regions, as they appear
//! on the wire, together with the facts the codec proofs need about them.

use vstd::prelude::*;

verus! {

/// The two-byte little-endian image of a `u16`.
pub open spec fn u16_le_bytes(v: u16) -> Seq<u8> {
    seq![(v & 0xff) as u8, ((v >> 8) & 0xff) as u8]
}

/// The four-byte little-endian image of a `u32`.
pub open spec fn u32_le_bytes(v: u32) -> Seq<u8> {
    seq![
        (v & 0xff) as u8,
        ((v >> 8) & 0xff) as u8,
        ((v >> 16) & 0xff) as u8,
        ((v >> 24) & 0xff) as u8,
    ]
}

/// The `u16` denoted by two bytes read little-endian.
pub open spec fn u16_from_le(b0: u8, b1: u8) -> u16 {
    (b0 as u16) | ((b1 as u16) << 8)
}

/// The `u32` denoted by four bytes read little-endian.
pub open spec fn u32_from_le(b0: u8, b1: u8, b2: u8, b3: u8) -> u32 {
    (b0 as u32) | ((b1 as u32) << 8) | ((b2 as u32) << 16) | ((b3 as u32) << 24)
}

/// A run of `n` reserved (zero) bytes.
pub open spec fn zero_bytes(n: nat) -> Seq<u8> {
    Seq::new(n, |i: int| 0u8)
}

/// Reading back the little-endian image of a `u16` gives the value itself.
pub proof fn lemma_u16_le_roundtrip(v: u16)
    ensures
        u16_from_le(u16_le_bytes(v)[0], u16_le_bytes(v)[1]) == v,
{
    assert(u16_from_le((v & 0xff) as u8, ((v >> 8) & 0xff) as u8) == v) by (bit_vector);
}

/// Reading back the little-endian image of a `u32` gives the value itself.
pub proof fn lemma_u32_le_roundtrip(v: u32)
    ensures
        u32_from_le(
            u32_le_bytes(v)[0],
            u32_le_bytes(v)[1],
            u32_le_bytes(v)[2],
            u32_le_bytes(v)[3],
        ) == v,
{
    assert(u32_from_le(
        (v & 0xff) as u8,
        ((v >> 8) & 0xff) as u8,
        ((v >> 16) & 0xff) as u8,
        ((v >> 24) & 0xff) as u8,
    ) == v) by (bit_vector);
}

/// Appends the little-endian image of a `u16` to `buf`.
pub fn push_u16_le(buf: &mut Vec<u8>, v: u16)
    ensures
        final(buf)@ == old(buf)@ + u16_le_bytes(v),
{
    buf.push((v & 0xff) as u8);
    buf.push(((v >> 8) & 0xff) as u8);
    assert(buf@ =~= old(buf)@ + u16_le_bytes(v));
}

/// Appends the little-endian image of a `u32` to `buf`.
pub fn push_u32_le(buf: &mut Vec<u8>, v: u32)
    ensures
        final(buf)@ == old(buf)@ + u32_le_bytes(v),
{
    buf.push((v & 0xff) as u8);
    buf.push(((v >> 8) & 0xff) as u8);
    buf.push(((v >> 16) & 0xff) as u8);
    buf.push(((v >> 24) & 0xff) as u8);
    assert(buf@ =~= old(buf)@ + u32_le_bytes(v));
}

/// Appends `n` reserved (zero) bytes to `buf`.
pub fn push_zero_bytes(buf: &mut Vec<u8>, n: usize)
    ensures
        final(buf)@ == old(buf)@ + zero_bytes(n as nat),
{
    let mut k: usize = 0;
    while k < n
        invariant
            k <= n,
            buf@ == old(buf)@ + zero_bytes(k as nat),
        decreases n - k,
    {
        buf.push(0u8);
        assert(buf@ =~= old(buf)@ + zero_bytes((k + 1) as nat));
        k = k + 1;
    }
}

/// Reads the `u16` stored little-endian at offset `i`.
pub fn read_u16_le(bytes: &[u8], i: usize) -> (r: u16)
    requires
        i + 2 <= bytes@.len(),
    ensures
        r == u16_from_le(bytes@[i as int], bytes@[i + 1]),
{
    (bytes[i] as u16) | ((bytes[i + 1] as u16) << 8)
}

/// Reads the `u32` stored little-endian at offset `i`.
pub fn read_u32_le(bytes: &[u8], i: usize) -> (r: u32)
    requires
        i + 4 <= bytes@.len(),
    ensures
        r == u32_from_le(bytes@[i as int], bytes@[i + 1], bytes@[i + 2], bytes@[i + 3]),
{
    (bytes[i] as u32) | ((bytes[i + 1] as u32) << 8) | ((bytes[i + 2] as u32) << 16) | ((bytes[i
        + 3] as u32) << 24)
}

} // verus!
