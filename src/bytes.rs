//! Little-endian images of fixed-width integers, as the kernel stores them on
//! x86_64.
use vstd::prelude::*;

verus! {

/// The two bytes of `x`, least significant first.
pub open spec fn u16_bytes(x: u16) -> Seq<u8> {
    seq![x as u8, (x >> 8u16) as u8]
}

/// The four bytes of `x`, least significant first.
pub open spec fn u32_bytes(x: u32) -> Seq<u8> {
    seq![x as u8, (x >> 8u32) as u8, (x >> 16u32) as u8, (x >> 24u32) as u8]
}

/// The eight bytes of `x`, least significant first.
pub open spec fn u64_bytes(x: u64) -> Seq<u8> {
    seq![
        x as u8,
        (x >> 8u64) as u8,
        (x >> 16u64) as u8,
        (x >> 24u64) as u8,
        (x >> 32u64) as u8,
        (x >> 40u64) as u8,
        (x >> 48u64) as u8,
        (x >> 56u64) as u8,
    ]
}

/// The bytes of each element of `s` in turn.
pub open spec fn u64s_bytes(s: Seq<u64>) -> Seq<u8>
    decreases s.len(),
{
    if s.len() == 0 {
        Seq::empty()
    } else {
        u64s_bytes(s.drop_last()) + u64_bytes(s.last())
    }
}

pub proof fn lemma_u16_bytes_injective(x: u16, y: u16)
    requires
        u16_bytes(x) == u16_bytes(y),
    ensures
        x == y,
{
    assert(u16_bytes(x)[0] == u16_bytes(y)[0]);
    assert(u16_bytes(x)[1] == u16_bytes(y)[1]);
    assert((x as u8 == y as u8 && (x >> 8u16) as u8 == (y >> 8u16) as u8) ==> x == y)
        by (bit_vector);
}

pub proof fn lemma_u32_bytes_injective(x: u32, y: u32)
    requires
        u32_bytes(x) == u32_bytes(y),
    ensures
        x == y,
{
    assert(u32_bytes(x)[0] == u32_bytes(y)[0]);
    assert(u32_bytes(x)[1] == u32_bytes(y)[1]);
    assert(u32_bytes(x)[2] == u32_bytes(y)[2]);
    assert(u32_bytes(x)[3] == u32_bytes(y)[3]);
    assert((x as u8 == y as u8 && (x >> 8u32) as u8 == (y >> 8u32) as u8 && (x >> 16u32) as u8
        == (y >> 16u32) as u8 && (x >> 24u32) as u8 == (y >> 24u32) as u8) ==> x == y)
        by (bit_vector);
}

pub proof fn lemma_u64_bytes_injective(x: u64, y: u64)
    requires
        u64_bytes(x) == u64_bytes(y),
    ensures
        x == y,
{
    assert(u64_bytes(x)[0] == u64_bytes(y)[0]);
    assert(u64_bytes(x)[1] == u64_bytes(y)[1]);
    assert(u64_bytes(x)[2] == u64_bytes(y)[2]);
    assert(u64_bytes(x)[3] == u64_bytes(y)[3]);
    assert(u64_bytes(x)[4] == u64_bytes(y)[4]);
    assert(u64_bytes(x)[5] == u64_bytes(y)[5]);
    assert(u64_bytes(x)[6] == u64_bytes(y)[6]);
    assert(u64_bytes(x)[7] == u64_bytes(y)[7]);
    assert((x as u8 == y as u8 && (x >> 8u64) as u8 == (y >> 8u64) as u8 && (x >> 16u64) as u8
        == (y >> 16u64) as u8 && (x >> 24u64) as u8 == (y >> 24u64) as u8 && (x >> 32u64) as u8
        == (y >> 32u64) as u8 && (x >> 40u64) as u8 == (y >> 40u64) as u8 && (x >> 48u64) as u8
        == (y >> 48u64) as u8 && (x >> 56u64) as u8 == (y >> 56u64) as u8) ==> x == y)
        by (bit_vector);
}

pub proof fn lemma_u64s_bytes_len(s: Seq<u64>)
    ensures
        u64s_bytes(s).len() == 8 * s.len(),
    decreases s.len(),
{
    if s.len() > 0 {
        lemma_u64s_bytes_len(s.drop_last());
    }
}

pub proof fn lemma_u64s_bytes_injective(s: Seq<u64>, t: Seq<u64>)
    requires
        s.len() == t.len(),
        u64s_bytes(s) == u64s_bytes(t),
    ensures
        s == t,
    decreases s.len(),
{
    if s.len() > 0 {
        let (a, b) = (u64s_bytes(s.drop_last()), u64s_bytes(t.drop_last()));
        lemma_u64s_bytes_len(s.drop_last());
        lemma_u64s_bytes_len(t.drop_last());
        assert(a =~= u64s_bytes(s).subrange(0, a.len() as int));
        assert(b =~= u64s_bytes(t).subrange(0, b.len() as int));
        assert(u64_bytes(s.last()) =~= u64s_bytes(s).subrange(a.len() as int, a.len() as int + 8));
        assert(u64_bytes(t.last()) =~= u64s_bytes(t).subrange(b.len() as int, b.len() as int + 8));
        lemma_u64s_bytes_injective(s.drop_last(), t.drop_last());
        lemma_u64_bytes_injective(s.last(), t.last());
        assert(s =~= s.drop_last().push(s.last()));
        assert(t =~= t.drop_last().push(t.last()));
    }
}

/// Reads the two bytes at `off` as a little-endian integer.
pub fn read_u16(b: &[u8], off: usize) -> (x: u16)
    requires
        off + 2 <= b@.len(),
    ensures
        u16_bytes(x) == b@.subrange(off as int, off + 2),
{
    let (b0, b1) = (b[off], b[off + 1]);
    let x = (b0 as u16) | ((b1 as u16) << 8u16);
    assert(x as u8 == b0 && (x >> 8u16) as u8 == b1) by (bit_vector)
        requires
            x == (b0 as u16) | ((b1 as u16) << 8u16),
    ;
    assert(u16_bytes(x) =~= b@.subrange(off as int, off + 2));
    x
}

/// Reads the four bytes at `off` as a little-endian integer.
pub fn read_u32(b: &[u8], off: usize) -> (x: u32)
    requires
        off + 4 <= b@.len(),
    ensures
        u32_bytes(x) == b@.subrange(off as int, off + 4),
{
    let (b0, b1, b2, b3) = (b[off], b[off + 1], b[off + 2], b[off + 3]);
    let x = (b0 as u32) | ((b1 as u32) << 8u32) | ((b2 as u32) << 16u32) | ((b3 as u32) << 24u32);
    assert(x as u8 == b0 && (x >> 8u32) as u8 == b1 && (x >> 16u32) as u8 == b2 && (x >> 24u32) as u8
        == b3) by (bit_vector)
        requires
            x == (b0 as u32) | ((b1 as u32) << 8u32) | ((b2 as u32) << 16u32) | ((b3 as u32)
                << 24u32),
    ;
    assert(u32_bytes(x) =~= b@.subrange(off as int, off + 4));
    x
}

/// Reads the eight bytes at `off` as a little-endian integer.
pub fn read_u64(b: &[u8], off: usize) -> (x: u64)
    requires
        off + 8 <= b@.len(),
    ensures
        u64_bytes(x) == b@.subrange(off as int, off + 8),
{
    let n = b.len();
    assert(off + 8 <= n);
    let lo = read_u32(b, off) as u64;
    let hi = read_u32(b, off + 4) as u64;
    let x = lo | (hi << 32u64);
    assert(x as u8 == lo as u8 && (x >> 8u64) as u8 == (lo >> 8u64) as u8 && (x >> 16u64) as u8
        == (lo >> 16u64) as u8 && (x >> 24u64) as u8 == (lo >> 24u64) as u8 && (x >> 32u64) as u8
        == hi as u8 && (x >> 40u64) as u8 == (hi >> 8u64) as u8 && (x >> 48u64) as u8 == (hi
        >> 16u64) as u8 && (x >> 56u64) as u8 == (hi >> 24u64) as u8) by (bit_vector)
        requires
            x == lo | (hi << 32u64),
            lo < 0x1_0000_0000u64,
            hi < 0x1_0000_0000u64,
    ;
    let ghost (l, h) = (lo as u32, hi as u32);
    assert((lo as u8 == l as u8 && (lo >> 8u64) as u8 == (l >> 8u32) as u8 && (lo >> 16u64) as u8
        == (l >> 16u32) as u8 && (lo >> 24u64) as u8 == (l >> 24u32) as u8)) by (bit_vector)
        requires
            lo == l as u64,
    ;
    assert((hi as u8 == h as u8 && (hi >> 8u64) as u8 == (h >> 8u32) as u8 && (hi >> 16u64) as u8
        == (h >> 16u32) as u8 && (hi >> 24u64) as u8 == (h >> 24u32) as u8)) by (bit_vector)
        requires
            hi == h as u64,
    ;
    assert(u64_bytes(x) =~= b@.subrange(off as int, off + 8));
    x
}

/// Appends the two bytes of `x`, least significant first.
pub fn push_u16(v: &mut Vec<u8>, x: u16)
    ensures
        final(v)@ == old(v)@ + u16_bytes(x),
{
    v.push(x as u8);
    v.push((x >> 8u16) as u8);
    assert(final(v)@ =~= old(v)@ + u16_bytes(x));
}

/// Appends the four bytes of `x`, least significant first.
pub fn push_u32(v: &mut Vec<u8>, x: u32)
    ensures
        final(v)@ == old(v)@ + u32_bytes(x),
{
    v.push(x as u8);
    v.push((x >> 8u32) as u8);
    v.push((x >> 16u32) as u8);
    v.push((x >> 24u32) as u8);
    assert(final(v)@ =~= old(v)@ + u32_bytes(x));
}

/// Appends the eight bytes of `x`, least significant first.
pub fn push_u64(v: &mut Vec<u8>, x: u64)
    ensures
        final(v)@ == old(v)@ + u64_bytes(x),
{
    v.push(x as u8);
    v.push((x >> 8u64) as u8);
    v.push((x >> 16u64) as u8);
    v.push((x >> 24u64) as u8);
    v.push((x >> 32u64) as u8);
    v.push((x >> 40u64) as u8);
    v.push((x >> 48u64) as u8);
    v.push((x >> 56u64) as u8);
    assert(final(v)@ =~= old(v)@ + u64_bytes(x));
}

} // verus!
