//! Big-endian byte-level encoding of the fixed-width integers used by the
//! wire format. All multi-byte integers are big-endian on the wire regardless
//! of host byte order.

use vstd::prelude::*;

verus! {

/// The big-endian bytes of a `u16`, most significant first.
pub open spec fn u16_bytes(x: u16) -> Seq<u8> {
    seq![((x >> 8) & 0xff) as u8, (x & 0xff) as u8]
}

/// The big-endian bytes of a `u32`, most significant first.
pub open spec fn u32_bytes(x: u32) -> Seq<u8> {
    seq![
        ((x >> 24) & 0xff) as u8,
        ((x >> 16) & 0xff) as u8,
        ((x >> 8) & 0xff) as u8,
        (x & 0xff) as u8,
    ]
}

/// The big-endian bytes of a `u64`, most significant first.
pub open spec fn u64_bytes(x: u64) -> Seq<u8> {
    seq![
        ((x >> 56) & 0xff) as u8,
        ((x >> 48) & 0xff) as u8,
        ((x >> 40) & 0xff) as u8,
        ((x >> 32) & 0xff) as u8,
        ((x >> 24) & 0xff) as u8,
        ((x >> 16) & 0xff) as u8,
        ((x >> 8) & 0xff) as u8,
        (x & 0xff) as u8,
    ]
}

/// The `u16` denoted by two big-endian bytes.
pub open spec fn u16_of_bytes(s: Seq<u8>) -> u16
    recommends
        s.len() == 2,
{
    ((s[0] as u16) << 8) | (s[1] as u16)
}

/// The `u32` denoted by four big-endian bytes.
pub open spec fn u32_of_bytes(s: Seq<u8>) -> u32
    recommends
        s.len() == 4,
{
    ((s[0] as u32) << 24) | ((s[1] as u32) << 16) | ((s[2] as u32) << 8) | (s[3] as u32)
}

/// The `u64` denoted by eight big-endian bytes.
pub open spec fn u64_of_bytes(s: Seq<u8>) -> u64
    recommends
        s.len() == 8,
{
    ((s[0] as u64) << 56) | ((s[1] as u64) << 48) | ((s[2] as u64) << 40) | ((s[3] as u64) << 32)
        | ((s[4] as u64) << 24) | ((s[5] as u64) << 16) | ((s[6] as u64) << 8) | (s[7] as u64)
}

/// Reading back the big-endian bytes of a `u16` yields the value itself.
pub proof fn lemma_u16_round_trip(x: u16)
    ensures
        u16_of_bytes(u16_bytes(x)) == x,
{
    assert((((((x >> 8) & 0xff) as u8) as u16) << 8) | (((x & 0xff) as u8) as u16) == x)
        by (bit_vector);
}

/// Reading back the big-endian bytes of a `u32` yields the value itself.
pub proof fn lemma_u32_round_trip(x: u32)
    ensures
        u32_of_bytes(u32_bytes(x)) == x,
{
    assert((((((x >> 24) & 0xff) as u8) as u32) << 24) | (((((x >> 16) & 0xff) as u8) as u32)
        << 16) | (((((x >> 8) & 0xff) as u8) as u32) << 8) | (((x & 0xff) as u8) as u32) == x)
        by (bit_vector);
}

/// Reading back the big-endian bytes of a `u64` yields the value itself.
pub proof fn lemma_u64_round_trip(x: u64)
    ensures
        u64_of_bytes(u64_bytes(x)) == x,
{
    assert((((((x >> 56) & 0xff) as u8) as u64) << 56) | (((((x >> 48) & 0xff) as u8) as u64)
        << 48) | (((((x >> 40) & 0xff) as u8) as u64) << 40) | (((((x >> 32) & 0xff) as u8)
        as u64) << 32) | (((((x >> 24) & 0xff) as u8) as u64) << 24) | (((((x >> 16) & 0xff)
        as u8) as u64) << 16) | (((((x >> 8) & 0xff) as u8) as u64) << 8) | (((x & 0xff) as u8)
        as u64) == x) by (bit_vector);
}

/// Appends the two big-endian bytes of `x` to `out`.
pub fn push_u16(out: &mut Vec<u8>, x: u16)
    ensures
        final(out)@ == old(out)@ + u16_bytes(x),
{
    out.push(((x >> 8) & 0xff) as u8);
    out.push((x & 0xff) as u8);
    assert(out@ =~= old(out)@ + u16_bytes(x));
}

/// Appends the four big-endian bytes of `x` to `out`.
pub fn push_u32(out: &mut Vec<u8>, x: u32)
    ensures
        final(out)@ == old(out)@ + u32_bytes(x),
{
    out.push(((x >> 24) & 0xff) as u8);
    out.push(((x >> 16) & 0xff) as u8);
    out.push(((x >> 8) & 0xff) as u8);
    out.push((x & 0xff) as u8);
    assert(out@ =~= old(out)@ + u32_bytes(x));
}

/// Appends the eight big-endian bytes of `x` to `out`.
pub fn push_u64(out: &mut Vec<u8>, x: u64)
    ensures
        final(out)@ == old(out)@ + u64_bytes(x),
{
    out.push(((x >> 56) & 0xff) as u8);
    out.push(((x >> 48) & 0xff) as u8);
    out.push(((x >> 40) & 0xff) as u8);
    out.push(((x >> 32) & 0xff) as u8);
    out.push(((x >> 24) & 0xff) as u8);
    out.push(((x >> 16) & 0xff) as u8);
    out.push(((x >> 8) & 0xff) as u8);
    out.push((x & 0xff) as u8);
    assert(out@ =~= old(out)@ + u64_bytes(x));
}

/// Reads the big-endian `u16` at offset `off` of `buf`.
pub fn read_u16(buf: &[u8], off: usize) -> (r: u16)
    requires
        off + 2 <= buf@.len(),
    ensures
        r == u16_of_bytes(buf@.subrange(off as int, off as int + 2)),
{
    let b0 = buf[off];
    let b1 = buf[off + 1];
    let r = ((b0 as u16) << 8) | (b1 as u16);
    proof {
        let s = buf@.subrange(off as int, off as int + 2);
        assert(s[0] == b0 && s[1] == b1);
    }
    r
}

/// Reads the big-endian `u32` at offset `off` of `buf`.
pub fn read_u32(buf: &[u8], off: usize) -> (r: u32)
    requires
        off + 4 <= buf@.len(),
    ensures
        r == u32_of_bytes(buf@.subrange(off as int, off as int + 4)),
{
    let b0 = buf[off];
    let b1 = buf[off + 1];
    let b2 = buf[off + 2];
    let b3 = buf[off + 3];
    let r = ((b0 as u32) << 24) | ((b1 as u32) << 16) | ((b2 as u32) << 8) | (b3 as u32);
    proof {
        let s = buf@.subrange(off as int, off as int + 4);
        assert(s[0] == b0 && s[1] == b1 && s[2] == b2 && s[3] == b3);
    }
    r
}

/// Reads the big-endian `u64` at offset `off` of `buf`.
pub fn read_u64(buf: &[u8], off: usize) -> (r: u64)
    requires
        off + 8 <= buf@.len(),
    ensures
        r == u64_of_bytes(buf@.subrange(off as int, off as int + 8)),
{
    let b0 = buf[off];
    let b1 = buf[off + 1];
    let b2 = buf[off + 2];
    let b3 = buf[off + 3];
    let b4 = buf[off + 4];
    let b5 = buf[off + 5];
    let b6 = buf[off + 6];
    let b7 = buf[off + 7];
    let r = ((b0 as u64) << 56) | ((b1 as u64) << 48) | ((b2 as u64) << 40) | ((b3 as u64) << 32)
        | ((b4 as u64) << 24) | ((b5 as u64) << 16) | ((b6 as u64) << 8) | (b7 as u64);
    proof {
        let s = buf@.subrange(off as int, off as int + 8);
        assert(s[0] == b0 && s[1] == b1 && s[2] == b2 && s[3] == b3);
        assert(s[4] == b4 && s[5] == b5 && s[6] == b6 && s[7] == b7);
    }
    r
}

} // verus!
