//! Little-endian encoding of unsigned integers, the byte order of CANopen.
use vstd::prelude::*;

verus! {

/// Little-endian value of two bytes.
pub open spec fn le_u16(b0: u8, b1: u8) -> u16 {
    (b0 as u16) | ((b1 as u16) << 8)
}

/// Little-endian value of four bytes.
pub open spec fn le_u32(b0: u8, b1: u8, b2: u8, b3: u8) -> u32 {
    (b0 as u32) | ((b1 as u32) << 8) | ((b2 as u32) << 16) | ((b3 as u32) << 24)
}

/// Little-endian value of eight bytes.
pub open spec fn le_u64_parts(b0: u8, b1: u8, b2: u8, b3: u8, b4: u8, b5: u8, b6: u8, b7: u8) -> u64 {
    (b0 as u64) | ((b1 as u64) << 8) | ((b2 as u64) << 16) | ((b3 as u64) << 24) | ((b4 as u64)
        << 32) | ((b5 as u64) << 40) | ((b6 as u64) << 48) | ((b7 as u64) << 56)
}

/// Little-endian value of the first eight bytes of `s`.
pub open spec fn le_u64(s: Seq<u8>) -> u64 {
    le_u64_parts(s[0], s[1], s[2], s[3], s[4], s[5], s[6], s[7])
}

/// The two little-endian bytes of `v`.
pub open spec fn u16_le_bytes(v: u16) -> Seq<u8> {
    seq![(v & 0xff) as u8, ((v >> 8) & 0xff) as u8]
}

/// The four little-endian bytes of `v`.
pub open spec fn u32_le_bytes(v: u32) -> Seq<u8> {
    seq![
        (v & 0xff) as u8,
        ((v >> 8) & 0xff) as u8,
        ((v >> 16) & 0xff) as u8,
        ((v >> 24) & 0xff) as u8,
    ]
}

/// The eight little-endian bytes of `v`.
pub open spec fn u64_le_bytes(v: u64) -> Seq<u8> {
    seq![
        (v & 0xff) as u8,
        ((v >> 8) & 0xff) as u8,
        ((v >> 16) & 0xff) as u8,
        ((v >> 24) & 0xff) as u8,
        ((v >> 32) & 0xff) as u8,
        ((v >> 40) & 0xff) as u8,
        ((v >> 48) & 0xff) as u8,
        ((v >> 56) & 0xff) as u8,
    ]
}

/// Decodes two little-endian bytes.
pub fn u16_from_le(b0: u8, b1: u8) -> (r: u16)
    ensures
        r == le_u16(b0, b1),
{
    (b0 as u16) | ((b1 as u16) << 8)
}

/// Decodes four little-endian bytes.
pub fn u32_from_le(b0: u8, b1: u8, b2: u8, b3: u8) -> (r: u32)
    ensures
        r == le_u32(b0, b1, b2, b3),
{
    (b0 as u32) | ((b1 as u32) << 8) | ((b2 as u32) << 16) | ((b3 as u32) << 24)
}

/// Decodes the first eight bytes of `s`, little-endian.
pub fn u64_from_le(s: &[u8]) -> (r: u64)
    requires
        s@.len() >= 8,
    ensures
        r == le_u64(s@),
{
    (s[0] as u64) | ((s[1] as u64) << 8) | ((s[2] as u64) << 16) | ((s[3] as u64) << 24) | ((
    s[4] as u64) << 32) | ((s[5] as u64) << 40) | ((s[6] as u64) << 48) | ((s[7] as u64) << 56)
}

/// Appends the two little-endian bytes of `v`.
pub fn push_u16_le(out: &mut Vec<u8>, v: u16)
    ensures
        final(out)@ == old(out)@ + u16_le_bytes(v),
{
    out.push((v & 0xff) as u8);
    out.push(((v >> 8) & 0xff) as u8);
    proof {
        assert(final(out)@ =~= old(out)@ + u16_le_bytes(v));
    }
}

/// Appends the four little-endian bytes of `v`.
pub fn push_u32_le(out: &mut Vec<u8>, v: u32)
    ensures
        final(out)@ == old(out)@ + u32_le_bytes(v),
{
    out.push((v & 0xff) as u8);
    out.push(((v >> 8) & 0xff) as u8);
    out.push(((v >> 16) & 0xff) as u8);
    out.push(((v >> 24) & 0xff) as u8);
    proof {
        assert(final(out)@ =~= old(out)@ + u32_le_bytes(v));
    }
}

/// Appends the eight little-endian bytes of `v`.
pub fn push_u64_le(out: &mut Vec<u8>, v: u64)
    ensures
        final(out)@ == old(out)@ + u64_le_bytes(v),
{
    out.push((v & 0xff) as u8);
    out.push(((v >> 8) & 0xff) as u8);
    out.push(((v >> 16) & 0xff) as u8);
    out.push(((v >> 24) & 0xff) as u8);
    out.push(((v >> 32) & 0xff) as u8);
    out.push(((v >> 40) & 0xff) as u8);
    out.push(((v >> 48) & 0xff) as u8);
    out.push(((v >> 56) & 0xff) as u8);
    proof {
        assert(final(out)@ =~= old(out)@ + u64_le_bytes(v));
    }
}

/// Decoding the bytes of a `u16` gives it back.
pub proof fn lemma_u16_le_roundtrip(v: u16)
    ensures
        u16_le_bytes(v).len() == 2,
        le_u16(u16_le_bytes(v)[0], u16_le_bytes(v)[1]) == v,
{
    assert(le_u16((v & 0xff) as u8, ((v >> 8) & 0xff) as u8) == v) by (bit_vector);
}

/// Decoding the bytes of a `u32` gives it back.
pub proof fn lemma_u32_le_roundtrip(v: u32)
    ensures
        u32_le_bytes(v).len() == 4,
        le_u32(u32_le_bytes(v)[0], u32_le_bytes(v)[1], u32_le_bytes(v)[2], u32_le_bytes(v)[3])
            == v,
{
    assert(le_u32(
        (v & 0xff) as u8,
        ((v >> 8) & 0xff) as u8,
        ((v >> 16) & 0xff) as u8,
        ((v >> 24) & 0xff) as u8,
    ) == v) by (bit_vector);
}

/// Decoding the bytes of a `u64` gives it back.
pub proof fn lemma_u64_le_roundtrip(v: u64)
    ensures
        u64_le_bytes(v).len() == 8,
        le_u64(u64_le_bytes(v)) == v,
{
    assert(le_u64_parts(
        (v & 0xff) as u8,
        ((v >> 8) & 0xff) as u8,
        ((v >> 16) & 0xff) as u8,
        ((v >> 24) & 0xff) as u8,
        ((v >> 32) & 0xff) as u8,
        ((v >> 40) & 0xff) as u8,
        ((v >> 48) & 0xff) as u8,
        ((v >> 56) & 0xff) as u8,
    ) == v) by (bit_vector);
}

/// Encoding the value of two bytes gives them back.
pub proof fn lemma_le_u16_bytes_roundtrip(b0: u8, b1: u8)
    ensures
        u16_le_bytes(le_u16(b0, b1)) == seq![b0, b1],
{
    let x = le_u16(b0, b1);
    assert((x == (b0 as u16) | ((b1 as u16) << 8)) ==> ((x & 0xff) as u8 == b0 && ((x >> 8) & 0xff)
        as u8 == b1)) by (bit_vector);
    assert(u16_le_bytes(x) =~= seq![b0, b1]);
}

/// Encoding the value of four bytes gives them back.
pub proof fn lemma_le_u32_bytes_roundtrip(b0: u8, b1: u8, b2: u8, b3: u8)
    ensures
        u32_le_bytes(le_u32(b0, b1, b2, b3)) == seq![b0, b1, b2, b3],
{
    let x = le_u32(b0, b1, b2, b3);
    assert((x == (b0 as u32) | ((b1 as u32) << 8) | ((b2 as u32) << 16) | ((b3 as u32) << 24)) ==> (
    (x & 0xff) as u8 == b0 && ((x >> 8) & 0xff) as u8 == b1 && ((x >> 16) & 0xff) as u8 == b2 && ((
    x >> 24) & 0xff) as u8 == b3)) by (bit_vector);
    assert(u32_le_bytes(x) =~= seq![b0, b1, b2, b3]);
}

} // verus!
