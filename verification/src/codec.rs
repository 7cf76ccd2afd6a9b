//! Fixed-width little-endian encoding of the nonce counter.
//!
//! A nonce is always serialized as exactly 16 bytes, least significant
//! byte first, whatever its numeric magnitude. This byte layout is the
//! wire-level contract for verifying a reported proof-of-work pair.

use vstd::prelude::*;

verus! {

/// Byte `i` (counting from the least significant end) of the
/// little-endian encoding of `n`.
pub open spec fn le_byte(n: u128, i: int) -> u8 {
    ((n >> ((8 * i) as u128)) & 0xff) as u8
}

/// The 16-byte little-endian encoding of `n`.
pub open spec fn le16_spec(n: u128) -> Seq<u8> {
    Seq::new(16, |i: int| le_byte(n, i))
}

/// Encodes `n` as exactly 16 little-endian bytes.
pub fn le16(n: u128) -> (r: Vec<u8>)
    ensures
        r@ == le16_spec(n),
        r@.len() == 16,
{
    let mut out: Vec<u8> = Vec::new();
    let mut i: usize = 0;
    while i < 16
        invariant
            i <= 16,
            out@.len() == i,
            forall|j: int| 0 <= j < i ==> out@[j] == le_byte(n, j),
        decreases 16 - i,
    {
        let shift: u128 = 8 * (i as u128);
        let masked: u128 = (n >> shift) & 0xff;
        assert(masked < 256) by (bit_vector)
            requires
                masked == (n >> shift) & 0xff,
        ;
        let b: u8 = masked as u8;
        assert(b == le_byte(n, i as int));
        out.push(b);
        i += 1;
    }
    assert(out@ =~= le16_spec(n));
    out
}

/// The fixed-width encoding is injective over the full 128-bit range:
/// distinct nonces never share an encoding.
pub proof fn lemma_le16_injective(a: u128, b: u128)
    requires
        le16_spec(a) == le16_spec(b),
    ensures
        a == b,
{
    assert forall|i: int| 0 <= i < 16 implies le_byte(a, i) == le_byte(b, i) by {
        assert(le16_spec(a)[i] == le_byte(a, i));
        assert(le16_spec(b)[i] == le_byte(b, i));
        assert(le16_spec(a)[i] == le16_spec(b)[i]);
    }
    assert(a == b) by (bit_vector)
        requires
            le_byte(a, 0) == le_byte(b, 0),
            le_byte(a, 1) == le_byte(b, 1),
            le_byte(a, 2) == le_byte(b, 2),
            le_byte(a, 3) == le_byte(b, 3),
            le_byte(a, 4) == le_byte(b, 4),
            le_byte(a, 5) == le_byte(b, 5),
            le_byte(a, 6) == le_byte(b, 6),
            le_byte(a, 7) == le_byte(b, 7),
            le_byte(a, 8) == le_byte(b, 8),
            le_byte(a, 9) == le_byte(b, 9),
            le_byte(a, 10) == le_byte(b, 10),
            le_byte(a, 11) == le_byte(b, 11),
            le_byte(a, 12) == le_byte(b, 12),
            le_byte(a, 13) == le_byte(b, 13),
            le_byte(a, 14) == le_byte(b, 14),
            le_byte(a, 15) == le_byte(b, 15),
    ;
}

} // verus!
