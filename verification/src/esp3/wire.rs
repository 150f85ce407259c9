//! Big-endian integers as they appear on the wire in ESP3 packets.

use vstd::prelude::*;
use crate::max_array::MaxArray;
use crate::max_array_ext::{be_u16_bytes, be_u32_bytes};

verus! {

/// The 16-bit value whose big-endian bytes are `b[0..2]`.
pub open spec fn be_u16_of(b: Seq<u8>) -> u16 {
    (b[0] as int * 0x100 + b[1] as int) as u16
}

/// The 24-bit value whose big-endian bytes are `b[0..3]`.
pub open spec fn be_u24_of(b: Seq<u8>) -> u32 {
    (b[0] as int * 0x1_0000 + b[1] as int * 0x100 + b[2] as int) as u32
}

/// The 32-bit value whose big-endian bytes are `b[0..4]`.
pub open spec fn be_u32_of(b: Seq<u8>) -> u32 {
    (b[0] as int * 0x100_0000 + b[1] as int * 0x1_0000 + b[2] as int * 0x100 + b[3] as int) as u32
}

/// The 16-bit value stored big-endian at `s[i..i+2]`.
pub open spec fn be_u16_at(s: Seq<u8>, i: int) -> u16 {
    be_u16_of(s.subrange(i, i + 2))
}

/// The 24-bit value stored big-endian at `s[i..i+3]`.
pub open spec fn be_u24_at(s: Seq<u8>, i: int) -> u32 {
    be_u24_of(s.subrange(i, i + 3))
}

/// The 32-bit value stored big-endian at `s[i..i+4]`.
pub open spec fn be_u32_at(s: Seq<u8>, i: int) -> u32 {
    be_u32_of(s.subrange(i, i + 4))
}

/// The three low bytes of a 32-bit value in big-endian order (the most significant byte is
/// dropped).
pub open spec fn be_u24_bytes(v: u32) -> Seq<u8> {
    seq![(v >> 16u32) as u8, (v >> 8u32) as u8, v as u8]
}

/// Reads the big-endian 16-bit value at `s[i..i+2]`.
pub fn read_u16_be(s: &[u8], i: usize) -> (ret: u16)
    requires
        i + 2 <= s@.len(),
    ensures
        ret == be_u16_at(s@, i as int),
{
    (s[i] as u16) * 0x100 + (s[i + 1] as u16)
}

/// Reads the big-endian 24-bit value at `s[i..i+3]`.
pub fn read_u24_be(s: &[u8], i: usize) -> (ret: u32)
    requires
        i + 3 <= s@.len(),
    ensures
        ret == be_u24_at(s@, i as int),
{
    (s[i] as u32) * 0x1_0000 + (s[i + 1] as u32) * 0x100 + (s[i + 2] as u32)
}

/// Reads the big-endian 32-bit value at `s[i..i+4]`.
pub fn read_u32_be(s: &[u8], i: usize) -> (ret: u32)
    requires
        i + 4 <= s@.len(),
    ensures
        ret == be_u32_at(s@, i as int),
{
    (s[i] as u32) * 0x100_0000 + (s[i + 1] as u32) * 0x1_0000 + (s[i + 2] as u32) * 0x100
        + (s[i + 3] as u32)
}

/// Reads four consecutive big-endian 32-bit values starting at `s[i]`.
pub fn read_u32x4_be(s: &[u8], i: usize) -> (ret: [u32; 4])
    requires
        i + 16 <= s@.len(),
    ensures
        ret@ == be_u32x4_at(s@, i as int),
{
    let _len = s.len();
    let ret = [
        read_u32_be(s, i),
        read_u32_be(s, i + 4),
        read_u32_be(s, i + 8),
        read_u32_be(s, i + 12),
    ];
    assert(ret@ =~= be_u32x4_at(s@, i as int));
    ret
}

/// The four consecutive big-endian 32-bit values starting at `s[i]`.
pub open spec fn be_u32x4_at(s: Seq<u8>, i: int) -> Seq<u32> {
    seq![be_u32_at(s, i), be_u32_at(s, i + 4), be_u32_at(s, i + 8), be_u32_at(s, i + 12)]
}

/// The bytes of four 32-bit values, each in big-endian order.
pub open spec fn be_u32x4_bytes(v: Seq<u32>) -> Seq<u8> {
    be_u32_bytes(v[0]) + be_u32_bytes(v[1]) + be_u32_bytes(v[2]) + be_u32_bytes(v[3])
}

/// Writing a 16-bit value and reading it back gives the value.
pub proof fn lemma_u16_roundtrip(v: u16)
    ensures
        be_u16_of(be_u16_bytes(v)) == v,
{
    let a = (v >> 8u16) as u8;
    let b = v as u8;
    assert(((a as u16) * 0x100u16 + (b as u16)) as u16 == v) by (bit_vector)
        requires
            a == (v >> 8u16) as u8,
            b == v as u8,
    ;
}

/// Reading a 16-bit value and writing it back gives the bytes that were read.
pub proof fn lemma_u16_bytes_of(b: Seq<u8>)
    requires
        b.len() == 2,
    ensures
        be_u16_bytes(be_u16_of(b)) == b,
{
    let x = b[0];
    let y = b[1];
    let v = be_u16_of(b);
    assert(v == ((x as u16) * 0x100u16 + (y as u16)) as u16);
    assert((v >> 8u16) as u8 == x && v as u8 == y) by (bit_vector)
        requires
            v == ((x as u16) * 0x100u16 + (y as u16)) as u16,
    ;
    assert(be_u16_bytes(v) =~= b);
}

/// Writing the three low bytes of a value below 2^24 and reading them back gives the value.
pub proof fn lemma_u24_roundtrip(v: u32)
    requires
        v < 0x100_0000,
    ensures
        be_u24_of(be_u24_bytes(v)) == v,
{
    let a = (v >> 16u32) as u8;
    let b = (v >> 8u32) as u8;
    let c = v as u8;
    assert(((a as u32) * 0x1_0000u32 + (b as u32) * 0x100u32 + (c as u32)) as u32 == v)
        by (bit_vector)
        requires
            v < 0x100_0000,
            a == (v >> 16u32) as u8,
            b == (v >> 8u32) as u8,
            c == v as u8,
    ;
}

/// Reading a 24-bit value and writing it back gives the bytes that were read.
pub proof fn lemma_u24_bytes_of(b: Seq<u8>)
    requires
        b.len() == 3,
    ensures
        be_u24_bytes(be_u24_of(b)) == b,
        be_u24_of(b) < 0x100_0000,
{
    let x = b[0];
    let y = b[1];
    let z = b[2];
    let v = be_u24_of(b);
    assert(v == ((x as u32) * 0x1_0000u32 + (y as u32) * 0x100u32 + (z as u32)) as u32);
    assert((v >> 16u32) as u8 == x && (v >> 8u32) as u8 == y && v as u8 == z && v < 0x100_0000)
        by (bit_vector)
        requires
            v == ((x as u32) * 0x1_0000u32 + (y as u32) * 0x100u32 + (z as u32)) as u32,
    ;
    assert(be_u24_bytes(v) =~= b);
}

/// Writing a 32-bit value and reading it back gives the value.
pub proof fn lemma_u32_roundtrip(v: u32)
    ensures
        be_u32_of(be_u32_bytes(v)) == v,
{
    let a = (v >> 24u32) as u8;
    let b = (v >> 16u32) as u8;
    let c = (v >> 8u32) as u8;
    let d = v as u8;
    assert(((a as u32) * 0x100_0000u32 + (b as u32) * 0x1_0000u32 + (c as u32) * 0x100u32
        + (d as u32)) as u32 == v) by (bit_vector)
        requires
            a == (v >> 24u32) as u8,
            b == (v >> 16u32) as u8,
            c == (v >> 8u32) as u8,
            d == v as u8,
    ;
}

/// Reading a 32-bit value and writing it back gives the bytes that were read.
pub proof fn lemma_u32_bytes_of(b: Seq<u8>)
    requires
        b.len() == 4,
    ensures
        be_u32_bytes(be_u32_of(b)) == b,
{
    let w = b[0];
    let x = b[1];
    let y = b[2];
    let z = b[3];
    let v = be_u32_of(b);
    assert(v == ((w as u32) * 0x100_0000u32 + (x as u32) * 0x1_0000u32 + (y as u32) * 0x100u32
        + (z as u32)) as u32);
    assert((v >> 24u32) as u8 == w && (v >> 16u32) as u8 == x && (v >> 8u32) as u8 == y
        && v as u8 == z) by (bit_vector)
        requires
            v == ((w as u32) * 0x100_0000u32 + (x as u32) * 0x1_0000u32 + (y as u32) * 0x100u32
                + (z as u32)) as u32,
    ;
    assert(be_u32_bytes(v) =~= b);
}

/// Appends all bytes of `bytes` to `buf`.
pub fn push_bytes<const N: usize>(buf: &mut MaxArray<u8, N>, bytes: &[u8])
    requires
        old(buf)@.len() + bytes@.len() <= N,
    ensures
        final(buf)@ == old(buf)@ + bytes@,
{
    let mut i: usize = 0;
    while i < bytes.len()
        invariant
            i <= bytes@.len(),
            old(buf)@.len() + bytes@.len() <= N,
            buf@ == old(buf)@ + bytes@.subrange(0, i as int),
        decreases bytes@.len() - i,
    {
        let r = buf.push(bytes[i]);
        i += 1;
        assert(bytes@.subrange(0, i as int) == bytes@.subrange(0, i - 1).push(bytes@[i - 1]));
    }
    assert(bytes@.subrange(0, bytes@.len() as int) == bytes@);
}

} // verus!
