//! Single bits of 32-bit masks, as the conditions read them.
use vstd::prelude::*;

verus! {

/// Bit `i` (counted from the lowest, 0) of `mask` is set.
pub open spec fn has_bit(mask: u32, i: u32) -> bool {
    (mask >> i) & 1u32 == 1u32
}

/// Testing `mask` against `1 << i`, from either side, reads bit `i` of `mask`.
pub proof fn lemma_shifted_bit(mask: u32, i: u32)
    requires
        i < 32,
    ensures
        ((1u32 << i) & mask != 0) == has_bit(mask, i),
        (mask & (1u32 << i) != 0) == has_bit(mask, i),
{
    assert(((1u32 << i) & mask != 0) == ((mask >> i) & 1u32 == 1u32)) by (bit_vector)
        requires
            i < 32,
    ;
    assert((mask & (1u32 << i) != 0) == ((mask >> i) & 1u32 == 1u32)) by (bit_vector)
        requires
            i < 32,
    ;
}

/// Two masks that both have bit `i` set share a bit.
pub proof fn lemma_common_bit(a: u32, b: u32, i: u32)
    requires
        i < 32,
        has_bit(a, i),
        has_bit(b, i),
    ensures
        a & b != 0,
{
    assert(((a >> i) & 1u32 == 1u32 && (b >> i) & 1u32 == 1u32) ==> a & b != 0) by (bit_vector)
        requires
            i < 32,
    ;
}

/// The low flag values 1, 2, 4, 8 and 64 are bits 0, 1, 2, 3 and 6.
pub proof fn lemma_low_flags(mask: u32)
    ensures
        (mask & 1 != 0) == has_bit(mask, 0),
        (mask & 2 != 0) == has_bit(mask, 1),
        (mask & 4 != 0) == has_bit(mask, 2),
        (mask & 8 != 0) == has_bit(mask, 3),
        (mask & 64 != 0) == has_bit(mask, 6),
{
    assert(((mask & 1u32 != 0) == ((mask >> 0u32) & 1u32 == 1u32)) && ((mask & 2u32 != 0) == ((mask
        >> 1u32) & 1u32 == 1u32)) && ((mask & 4u32 != 0) == ((mask >> 2u32) & 1u32 == 1u32)) && ((
    mask & 8u32 != 0) == ((mask >> 3u32) & 1u32 == 1u32)) && ((mask & 64u32 != 0) == ((mask
        >> 6u32) & 1u32 == 1u32))) by (bit_vector);
}

} // verus!
