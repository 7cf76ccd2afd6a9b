//! The hash gate: deciding whether a digest clears a difficulty level.
//!
//! A digest is read as a bit sequence, most significant bit of byte 0
//! first; difficulty `d` asks that the first `d` bits are all zero.

use vstd::prelude::*;

verus! {

/// The number of bits in a 32-byte digest, the largest difficulty a
/// caller may request.
pub const MAX_DIFFICULTY: usize = 256;

/// Bit `i` of the hash, most significant bit of byte 0 first.
pub open spec fn hash_bit(h: Seq<u8>, i: int) -> bool {
    (h[i / 8] >> ((7 - (i % 8)) as u8)) & 1 == 1
}

/// The first `d` bits of the hash are all zero.
pub open spec fn sat_spec(h: Seq<u8>, d: int) -> bool {
    forall|i: int| 0 <= i < d ==> !hash_bit(h, i)
}

/// Zero leading zero bits are required of no hash at all: difficulty 0
/// is satisfied vacuously by every digest.
pub proof fn lemma_satisfies_zero(h: Seq<u8>)
    ensures
        sat_spec(h, 0),
{
}

/// Decides whether the first `difficulty` bits of `hash` are all zero.
/// A difficulty beyond the digest's bit length is a caller contract
/// violation and is excluded here rather than clamped.
pub fn satisfies(hash: &[u8], difficulty: usize) -> (r: bool)
    requires
        hash@.len() == 32,
        difficulty <= MAX_DIFFICULTY,
    ensures
        r == sat_spec(hash@, difficulty as int),
{
    let mut i: usize = 0;
    while i < difficulty
        invariant
            i <= difficulty,
            difficulty <= 256,
            hash@.len() == 32,
            forall|j: int| 0 <= j < i ==> !hash_bit(hash@, j),
        decreases difficulty - i,
    {
        let byte: u8 = hash[i / 8];
        let shift: u8 = (7 - (i % 8)) as u8;
        let bit: u8 = (byte >> shift) & 1;
        if bit == 1 {
            assert(hash_bit(hash@, i as int));
            assert(!sat_spec(hash@, difficulty as int));
            return false;
        }
        assert(!hash_bit(hash@, i as int));
        i += 1;
    }
    true
}

} // verus!
