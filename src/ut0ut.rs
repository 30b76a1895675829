//! Bit counting helpers.
use vstd::prelude::*;

verus! {

/// How many bytes (groups of 8 bits) are needed to store `bits` bits.
#[allow(non_snake_case)]
pub fn UT_BITS_IN_BYTES(bits: u32) -> (r: u32)
    requires
        bits <= u32::MAX - 7,
    ensures
        r == (bits + 7) / 8,
{
    let r = (bits + 7) >> 3u32;
    assert(((bits + 7) as u32) >> 3u32 == ((bits + 7) as u32) / 8) by (bit_vector);
    r
}

/// Whether `n` is zero or a power of two.
#[allow(non_snake_case)]
pub fn UT_IS_2POW(n: u32) -> (r: bool)
    ensures
        r == (n == 0 || n & ((n - 1) as u32) == 0),
{
    n == 0 || n & (n - 1) == 0
}

} // verus!
