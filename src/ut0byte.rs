//! Alignment of addresses.
use vstd::prelude::*;

verus! {

/// Round an address down to a multiple of `alignment` (a power of 2).
pub fn ut_align_down(ptr: usize, alignment: usize) -> (r: usize)
    requires
        alignment > 0,
    ensures
        r == ptr & !((alignment - 1) as usize),
{
    ptr & !(alignment - 1)
}

/// The distance of an address from the multiple of `alignment` (a power of 2)
/// below it.
pub fn ut_align_offset(ptr: usize, alignment: usize) -> (r: usize)
    requires
        alignment > 0,
    ensures
        r == ptr & ((alignment - 1) as usize),
{
    ptr & (alignment - 1)
}

} // verus!
