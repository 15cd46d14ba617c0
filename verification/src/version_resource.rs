//! The blocks of a version resource (`VS_VERSIONINFO`) as
//! `pelite::resources::version_info` walks them to find the fixed file
//! information, and a check that the walk stays inside the data.
//!
//! Each block starts with three words (its length in bytes, the length of its
//! value, its type), then a null-terminated key, padding to a 32-bit
//! boundary, the value and the child blocks. The walk reads the first block
//! of the resource and then each of that block's children in turn.

use vstd::prelude::*;

use crate::bytes::{le_u16, read_u16_le};

verus! {

/// The resource's bytes as the little-endian words that the walk reads.
pub open spec fn resource_words(bytes: Seq<u8>) -> Seq<u16> {
    Seq::new((bytes.len() / 2) as nat, |i: int| le_u16(bytes, 2 * i))
}

/// `x` rounded up to an even number.
pub open spec fn align2(x: int) -> int {
    (x + 1) / 2 * 2
}

/// The first index in `i..e` that holds a zero word, or `e`.
pub open spec fn first_nul(w: Seq<u16>, i: int, e: int) -> int
    decreases e - i,
{
    if i >= e {
        e
    } else if w[i] == 0 {
        i
    } else {
        first_nul(w, i + 1, e)
    }
}

/// The first zero word lies between `i` and `e`.
proof fn lemma_first_nul_bounds(w: Seq<u16>, i: int, e: int)
    requires
        i <= e,
    ensures
        i <= first_nul(w, i, e) <= e,
    decreases e - i,
{
    if i < e && w[i] != 0 {
        lemma_first_nul_bounds(w, i + 1, e);
    }
}

/// What reading one block at `s`, in words `s..e`, comes to.
pub enum BlockRead {
    /// The key's padding would reach past the block's end: reading it
    /// indexes out of bounds.
    OutOfBounds,
    /// The block is malformed; the walk stops here.
    Invalid,
    /// The block was read: where its next sibling starts, and the words of
    /// its children.
    Read(int, int, int),
}

/// Reads the block at `s` in words `s..e`. `zero_value` is set for blocks
/// whose value must be empty (the children of the root block); otherwise the
/// value length is counted in bytes.
pub open spec fn block_at(w: Seq<u16>, s: int, e: int, zero_value: bool) -> BlockRead {
    if e - s < 4 {
        BlockRead::Invalid
    } else {
        let length: int = if w[s] / 2 > 4 {
            w[s] as int / 2
        } else {
            4
        };
        if zero_value && w[s + 1] != 0 {
            BlockRead::Invalid
        } else if length > e - s {
            BlockRead::Invalid
        } else {
            let value_len: int = if zero_value {
                0
            } else {
                w[s + 1] as int / 2
            };
            let next: int = s + if align2(length) < e - s {
                align2(length)
            } else {
                e - s
            };
            let end: int = s + length;
            let nul: int = first_nul(w, s + 3, end);
            if nul == end {
                BlockRead::Invalid
            } else {
                let value_start: int = s + align2(nul - (s + 3)) + 4;
                if value_start > end {
                    BlockRead::OutOfBounds
                } else if value_len > end - value_start {
                    BlockRead::Invalid
                } else {
                    let children: int = value_start + if align2(value_len) < end - value_start {
                        align2(value_len)
                    } else {
                        end - value_start
                    };
                    BlockRead::Read(next, children, end)
                }
            }
        }
    }
}

/// Reading the blocks in `s..e` one after the other, up to the first
/// malformed one, stays in bounds.
pub open spec fn children_in_bounds(w: Seq<u16>, s: int, e: int) -> bool
    decreases e - s,
{
    if s >= e || s < 0 {
        true
    } else {
        match block_at(w, s, e, true) {
            BlockRead::OutOfBounds => false,
            BlockRead::Invalid => true,
            BlockRead::Read(next, _, _) => if next <= s {
                true
            } else {
                children_in_bounds(w, next, e)
            },
        }
    }
}

/// Finding the fixed file information in these words stays in bounds: the
/// root block and each of its children are read without indexing past them.
pub open spec fn version_walk_in_bounds(w: Seq<u16>) -> bool {
    match block_at(w, 0, w.len() as int, false) {
        BlockRead::OutOfBounds => false,
        BlockRead::Invalid => true,
        BlockRead::Read(_, children, end) => children_in_bounds(w, children, end),
    }
}

/// First zero word in `i..e`, or `e`.
fn find_nul(bytes: &[u8], i: usize, e: usize) -> (r: usize)
    requires
        i <= e <= bytes@.len() / 2,
    ensures
        r as int == first_nul(resource_words(bytes@), i as int, e as int),
{
    let ghost w = resource_words(bytes@);
    let len: usize = bytes.len();
    assert(2 * (bytes@.len() / 2) <= bytes@.len()) by (nonlinear_arith);
    let mut k: usize = i;
    while k < e
        invariant
            i <= k <= e <= bytes@.len() / 2,
            2 * (bytes@.len() / 2) <= bytes@.len(),
            len == bytes@.len(),
            w == resource_words(bytes@),
            first_nul(w, i as int, e as int) == first_nul(w, k as int, e as int),
        decreases e - k,
    {
        if read_u16_le(bytes, 2 * k) == 0 {
            return k;
        }
        k += 1;
    }
    k
}

/// What reading a block comes to, with plain indices.
enum BlockReadAt {
    OutOfBounds,
    Invalid,
    Read(usize, usize, usize),
}

/// Reads the block at `s` in words `s..e`.
fn read_block(bytes: &[u8], s: usize, e: usize, zero_value: bool) -> (r: BlockReadAt)
    requires
        s <= e <= bytes@.len() / 2,
    ensures
        match (r, block_at(resource_words(bytes@), s as int, e as int, zero_value)) {
            (BlockReadAt::OutOfBounds, BlockRead::OutOfBounds) => true,
            (BlockReadAt::Invalid, BlockRead::Invalid) => true,
            (BlockReadAt::Read(a, b, c), BlockRead::Read(x, y, z)) => a == x && b == y && c == z,
            _ => false,
        },
        r matches BlockReadAt::Read(next, children, end) ==> s < next <= e && children <= end
            <= e,
{
    let ghost w = resource_words(bytes@);
    let len: usize = bytes.len();
    assert(2 * (bytes@.len() / 2) <= bytes@.len()) by (nonlinear_arith);
    if e - s < 4 {
        return BlockReadAt::Invalid;
    }
    let w0: u16 = read_u16_le(bytes, 2 * s);
    let w1: u16 = read_u16_le(bytes, 2 * s + 2);
    assert(w0 == w[s as int] && w1 == w[s + 1]);
    let length: usize = if w0 / 2 > 4 {
        (w0 / 2) as usize
    } else {
        4
    };
    if zero_value && w1 != 0 {
        return BlockReadAt::Invalid;
    }
    if length > e - s {
        return BlockReadAt::Invalid;
    }
    let value_len: usize = if zero_value {
        0
    } else {
        (w1 / 2) as usize
    };
    let aligned: usize = (length + 1) / 2 * 2;
    let next: usize = s + if aligned < e - s {
        aligned
    } else {
        e - s
    };
    let end: usize = s + length;
    let nul: usize = find_nul(bytes, s + 3, end);
    proof {
        lemma_first_nul_bounds(w, s + 3, end as int);
    }
    if nul == end {
        return BlockReadAt::Invalid;
    }
    let value_start: usize = s + (nul - (s + 3) + 1) / 2 * 2 + 4;
    if value_start > end {
        return BlockReadAt::OutOfBounds;
    }
    if value_len > end - value_start {
        return BlockReadAt::Invalid;
    }
    let aligned_value: usize = (value_len + 1) / 2 * 2;
    let children: usize = value_start + if aligned_value < end - value_start {
        aligned_value
    } else {
        end - value_start
    };
    BlockReadAt::Read(next, children, end)
}

/// One step of reading the children: the first block decides, and a block
/// that was read hands on to its next sibling.
proof fn lemma_children_step(w: Seq<u16>, s: int, e: int)
    requires
        0 <= s < e,
    ensures
        children_in_bounds(w, s, e) == match block_at(w, s, e, true) {
            BlockRead::OutOfBounds => false,
            BlockRead::Invalid => true,
            BlockRead::Read(next, _, _) => if next <= s {
                true
            } else {
                children_in_bounds(w, next, e)
            },
        },
{
}

/// True when finding the fixed file information in a version resource stays
/// in bounds.
pub fn version_walk_stays_in_bounds(bytes: &[u8]) -> (r: bool)
    ensures
        r == version_walk_in_bounds(resource_words(bytes@)),
{
    let ghost w = resource_words(bytes@);
    let n: usize = bytes.len() / 2;
    let bounds: (usize, usize) = match read_block(bytes, 0, n, false) {
        BlockReadAt::OutOfBounds => return false,
        BlockReadAt::Invalid => return true,
        BlockReadAt::Read(_, children, end) => (children, end),
    };
    let mut s: usize = bounds.0;
    let e: usize = bounds.1;
    while s < e
        invariant
            s <= e <= n,
            n == bytes@.len() / 2,
            w == resource_words(bytes@),
            version_walk_in_bounds(w) == children_in_bounds(w, s as int, e as int),
        decreases e - s,
    {
        let read = read_block(bytes, s, e, true);
        proof {
            lemma_children_step(w, s as int, e as int);
        }
        match read {
            BlockReadAt::OutOfBounds => return false,
            BlockReadAt::Invalid => return true,
            BlockReadAt::Read(next, _, _) => {
                s = next;
            },
        }
    }
    true
}

} // verus!
