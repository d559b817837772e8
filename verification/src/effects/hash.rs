//! A small deterministic hash for procedural effects.
//!
//! Effects that look random derive every "random" number from this hash of
//! stable inputs (cell coordinates, a counter, a time slot), so a tick is
//! reproducible.

use vstd::arithmetic::div_mod::lemma_add_mod_noop;
use vstd::prelude::*;

verus! {

/// The low 32 bits of a non-negative integer.
pub open spec fn low32(x: int) -> u32 {
    (x % 0x1_0000_0000) as u32
}

/// Folds the high bits of `h` into its low bits.
pub open spec fn fold(h: u32, shift: u32) -> u32 {
    h ^ (h >> shift)
}

/// The hash of a pair: a multiply-and-add of the two inputs followed by
/// three fold steps with two multiplications between them, all modulo 2^32.
pub open spec fn hash_of(a: u32, b: u32) -> u32 {
    let h0 = low32(a * 2654435761 + b * 2246822519);
    let h1 = low32(fold(h0, 16) * 2246822519);
    let h2 = low32(fold(h1, 13) * 3266489917);
    fold(h2, 16)
}

/// Hashes a pair of numbers.
pub fn simple_hash(a: u32, b: u32) -> (h: u32)
    ensures
        h == hash_of(a, b),
{
    let p: u32 = a.wrapping_mul(2654435761);
    let q: u32 = b.wrapping_mul(2246822519);
    let mut h: u32 = p.wrapping_add(q);
    proof {
        lemma_add_mod_noop(a * 2654435761, b * 2246822519, 0x1_0000_0000);
        assert(p == (a * 2654435761) % 0x1_0000_0000);
        assert(q == (b * 2246822519) % 0x1_0000_0000);
        assert(h == (p + q) % 0x1_0000_0000);
    }
    h ^= h >> 16;
    h = h.wrapping_mul(2246822519);
    h ^= h >> 13;
    h = h.wrapping_mul(3266489917);
    h ^= h >> 16;
    h
}

} // verus!
