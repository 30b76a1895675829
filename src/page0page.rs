//! Page frames within a tablespace image.
use vstd::prelude::*;

use crate::mach::{be_u32, field};
use crate::ut0byte::{ut_align_down, ut_align_offset};

verus! {

/// The start of the page frame that holds an address.
pub fn page_align(ptr: usize, page_size: usize) -> (r: usize)
    requires
        page_size > 0,
    ensures
        r == ptr & !((page_size - 1) as usize),
{
    ut_align_down(ptr, page_size)
}

/// The byte offset of an address within its page frame.
pub fn page_offset(ptr: usize, page_size: usize) -> (r: u16)
    requires
        page_size > 0,
    ensures
        r == (ptr & ((page_size - 1) as usize)) as u16,
{
    ut_align_offset(ptr, page_size) as u16
}

/// The page number stored in the page frame at `ptr`.
pub fn page_get_page_no(buf: &[u8], ptr: usize, page_size: usize) -> (r: u32)
    requires
        ptr + 8 <= buf@.len(),
    ensures
        r == be_u32(field(buf@, ptr + 4, 4)),
{
    let _n = buf.len();
    crate::mach::read_u32_at(buf, ptr + crate::fil0fil::FIL_PAGE_OFFSET as usize)
}

} // verus!
