//! Little-endian integers in byte sequences.

use vstd::prelude::*;

verus! {

/// The `u16` stored little-endian at `i`.
pub open spec fn le_u16(s: Seq<u8>, i: int) -> u16 {
    (s[i] as int + s[i + 1] as int * 0x100) as u16
}

/// The `u32` stored little-endian at `i`.
pub open spec fn le_u32(s: Seq<u8>, i: int) -> u32 {
    (s[i] as int + s[i + 1] as int * 0x100 + s[i + 2] as int * 0x10000 + s[i + 3] as int
        * 0x1000000) as u32
}

/// The `u64` stored little-endian at `i`.
pub open spec fn le_u64(s: Seq<u8>, i: int) -> u64 {
    (le_u32(s, i) as int + le_u32(s, i + 4) as int * 0x1_0000_0000) as u64
}

/// The little-endian bytes of a `u16`.
pub open spec fn u16_le(x: u16) -> Seq<u8> {
    seq![(x % 0x100) as u8, (x / 0x100) as u8]
}

/// The little-endian bytes of a `u32`.
pub open spec fn u32_le(x: u32) -> Seq<u8> {
    seq![
        (x % 0x100) as u8,
        (x / 0x100 % 0x100) as u8,
        (x / 0x10000 % 0x100) as u8,
        (x / 0x1000000) as u8,
    ]
}

/// The little-endian bytes of each unit, one after the other.
pub open spec fn u16s_le(units: Seq<u16>) -> Seq<u8>
    decreases units.len(),
{
    if units.len() == 0 {
        Seq::empty()
    } else {
        u16s_le(units.drop_last()) + u16_le(units.last())
    }
}

pub proof fn lemma_u32_le_roundtrip(x: u32)
    ensures
        u32_le(x).len() == 4,
        le_u32(u32_le(x), 0) == x,
{
    assert((x % 0x100) as int + (x / 0x100 % 0x100) as int * 0x100 + (x / 0x10000 % 0x100) as int
        * 0x10000 + (x / 0x1000000) as int * 0x1000000 == x) by (bit_vector);
}

pub proof fn lemma_u16_le_roundtrip(x: u16)
    ensures
        u16_le(x).len() == 2,
        le_u16(u16_le(x), 0) == x,
{
    assert(x % 0x100 + x / 0x100 * 0x100 == x) by (nonlinear_arith);
}

/// The little-endian `u32` at `i` of `a + x + c`, where `a` is `i` long,
/// is `x`.
pub proof fn lemma_le_u32_in_concat(a: Seq<u8>, x: u32, c: Seq<u8>)
    ensures
        le_u32(a + u32_le(x) + c, a.len() as int) == x,
{
    lemma_u32_le_roundtrip(x);
    let s = a + u32_le(x) + c;
    let i = a.len() as int;
    assert(s[i] == u32_le(x)[0]);
    assert(s[i + 1] == u32_le(x)[1]);
    assert(s[i + 2] == u32_le(x)[2]);
    assert(s[i + 3] == u32_le(x)[3]);
}

/// Reads the little-endian `u16` at `i`.
pub fn read_u16_le(s: &[u8], i: usize) -> (r: u16)
    requires
        i + 2 <= s.len(),
    ensures
        r == le_u16(s@, i as int),
{
    s[i] as u16 + s[i + 1] as u16 * 0x100
}

/// Reads the little-endian `u32` at `i`.
pub fn read_u32_le(s: &[u8], i: usize) -> (r: u32)
    requires
        i + 4 <= s.len(),
    ensures
        r == le_u32(s@, i as int),
{
    s[i] as u32 + s[i + 1] as u32 * 0x100 + s[i + 2] as u32 * 0x10000 + s[i + 3] as u32
        * 0x1000000
}

/// Reads the little-endian `u64` at `i`.
pub fn read_u64_le(s: &[u8], i: usize) -> (r: u64)
    requires
        i + 8 <= s.len(),
    ensures
        r == le_u64(s@, i as int),
{
    let lo = read_u32_le(s, i);
    let hi = read_u32_le(s, i + 4);
    lo as u64 + hi as u64 * 0x1_0000_0000
}

/// Appends the little-endian bytes of `x`.
pub fn push_u16_le(v: &mut Vec<u8>, x: u16)
    ensures
        final(v)@ == old(v)@ + u16_le(x),
{
    v.push((x % 0x100) as u8);
    v.push((x / 0x100) as u8);
    assert(final(v)@ =~= old(v)@ + u16_le(x));
}

/// Appends the little-endian bytes of `x`.
pub fn push_u32_le(v: &mut Vec<u8>, x: u32)
    ensures
        final(v)@ == old(v)@ + u32_le(x),
{
    v.push((x % 0x100) as u8);
    v.push((x / 0x100 % 0x100) as u8);
    v.push((x / 0x10000 % 0x100) as u8);
    v.push((x / 0x1000000) as u8);
    assert(final(v)@ =~= old(v)@ + u32_le(x));
}

} // verus!
