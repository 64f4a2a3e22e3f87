//! Little-endian integer fields of binary payloads.

use vstd::prelude::*;

verus! {

/// The unsigned number that the bytes `s` encode, least significant first.
pub open spec fn le_value(s: Seq<u8>) -> nat
    decreases s.len(),
{
    if s.len() == 0 {
        0
    } else {
        s[0] as nat + 256 * le_value(s.drop_first())
    }
}

/// Peeling the first byte off a range of `b`.
proof fn lemma_le_value_step(b: Seq<u8>, lo: int, hi: int)
    requires
        0 <= lo < hi <= b.len(),
    ensures
        le_value(b.subrange(lo, hi)) == b[lo] as nat + 256 * le_value(b.subrange(lo + 1, hi)),
{
    assert(b.subrange(lo, hi).drop_first() =~= b.subrange(lo + 1, hi));
}

/// Reads the four bytes at `at` as a little-endian `u32`.
pub fn read_u32_le(b: &[u8], at: usize) -> (r: u32)
    requires
        at + 4 <= b@.len(),
    ensures
        r as nat == le_value(b@.subrange(at as int, at + 4)),
{
    proof {
        let a = at as int;
        lemma_le_value_step(b@, a, a + 4);
        lemma_le_value_step(b@, a + 1, a + 4);
        lemma_le_value_step(b@, a + 2, a + 4);
        lemma_le_value_step(b@, a + 3, a + 4);
        assert(b@.subrange(a + 4, a + 4).len() == 0);
    }
    let b0 = b[at] as u32;
    let b1 = b[at + 1] as u32;
    let b2 = b[at + 2] as u32;
    let b3 = b[at + 3] as u32;
    b0 + 256 * (b1 + 256 * (b2 + 256 * b3))
}

/// Reads the eight bytes at `at` as a little-endian `u64`.
pub fn read_u64_le(b: &[u8], at: usize) -> (r: u64)
    requires
        at + 8 <= b@.len(),
    ensures
        r as nat == le_value(b@.subrange(at as int, at + 8)),
{
    proof {
        let a = at as int;
        lemma_le_value_step(b@, a, a + 8);
        lemma_le_value_step(b@, a + 1, a + 8);
        lemma_le_value_step(b@, a + 2, a + 8);
        lemma_le_value_step(b@, a + 3, a + 8);
        lemma_le_value_step(b@, a + 4, a + 8);
        lemma_le_value_step(b@, a + 5, a + 8);
        lemma_le_value_step(b@, a + 6, a + 8);
        lemma_le_value_step(b@, a + 7, a + 8);
        assert(b@.subrange(a + 8, a + 8).len() == 0);
    }
    let b0 = b[at] as u64;
    let b1 = b[at + 1] as u64;
    let b2 = b[at + 2] as u64;
    let b3 = b[at + 3] as u64;
    let b4 = b[at + 4] as u64;
    let b5 = b[at + 5] as u64;
    let b6 = b[at + 6] as u64;
    let b7 = b[at + 7] as u64;
    b0 + 256 * (b1 + 256 * (b2 + 256 * (b3 + 256 * (b4 + 256 * (b5 + 256 * (b6 + 256
        * b7))))))
}

} // verus!
