//! Bit fields of 32-bit words, numbered from the least significant bit.
use vstd::prelude::*;

verus! {

/// Bit `i` of `w`.
pub open spec fn bit(w: u32, i: u32) -> bool {
    (w >> i) & 1u32 == 1u32
}

/// The bits of `w` that start at bit `off`, selected by `mask` (a run of ones).
pub open spec fn field(w: u32, off: u32, mask: u32) -> u32 {
    (w >> off) & mask
}

/// Reads bit `i` of `w`.
pub fn get_bit(w: u32, i: u32) -> (r: bool)
    requires
        i < 32,
    ensures
        r == bit(w, i),
{
    (w >> i) & 1u32 == 1u32
}

/// Reads the bits of `w` that start at bit `off`, selected by `mask`.
pub fn get_field(w: u32, off: u32, mask: u32) -> (r: u32)
    requires
        off < 32,
    ensures
        r == field(w, off, mask),
        r <= mask,
{
    let r = (w >> off) & mask;
    assert(r <= mask) by (bit_vector)
        requires
            r == (w >> off) & mask,
    ;
    r
}

} // verus!
