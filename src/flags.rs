//! Single-bit flags packed into a byte.
use vstd::prelude::*;

verus! {

/// Whether the flag selected by `mask` is set in `bits`.
pub open spec fn flag(bits: u8, mask: u8) -> bool {
    bits & mask != 0
}

/// Setting or clearing one of the four flag bits changes that flag alone and
/// leaves the reserved high bits as they were.
pub proof fn lemma_single_bit(bits: u8, mask: u8)
    by (bit_vector)
    requires
        mask == 1 || mask == 2 || mask == 4 || mask == 8,
    ensures
        (bits | mask) & mask != 0,
        (bits & !mask) & mask == 0,
        mask != 1 ==> (bits | mask) & 1 == bits & 1 && (bits & !mask) & 1 == bits & 1,
        mask != 2 ==> (bits | mask) & 2 == bits & 2 && (bits & !mask) & 2 == bits & 2,
        mask != 4 ==> (bits | mask) & 4 == bits & 4 && (bits & !mask) & 4 == bits & 4,
        mask != 8 ==> (bits | mask) & 8 == bits & 8 && (bits & !mask) & 8 == bits & 8,
        (bits | mask) & 0xf0 == bits & 0xf0,
        (bits & !mask) & 0xf0 == bits & 0xf0,
{
}

/// `bits` with the flag selected by `mask` set to `value`.
pub fn with_flag(bits: u8, mask: u8, value: bool) -> (r: u8)
    requires
        mask == 1 || mask == 2 || mask == 4 || mask == 8,
    ensures
        flag(r, mask) == value,
        mask != 1 ==> r & 1 == bits & 1,
        mask != 2 ==> r & 2 == bits & 2,
        mask != 4 ==> r & 4 == bits & 4,
        mask != 8 ==> r & 8 == bits & 8,
        r & 0xf0 == bits & 0xf0,
{
    proof {
        lemma_single_bit(bits, mask);
    }
    if value {
        bits | mask
    } else {
        bits & !mask
    }
}

} // verus!
