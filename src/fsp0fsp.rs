//! Tablespace header, file segment inode and extent descriptor layout.
use vstd::prelude::*;

use crate::fsp0types::{FSP_EXTENT_SIZE, FSP_FLAGS_POS_PAGE_SSIZE};
use crate::fut0lst::{FLST_BASE_NODE_SIZE, FLST_NODE_SIZE};
use crate::ut0ut::UT_BITS_IN_BYTES;

verus! {

/// The PAGE_SSIZE flags for a page size and its log2.
#[allow(non_snake_case)]
pub fn FSP_FLAGS_PAGE_SSIZE(page_size: usize, page_size_shift: usize) -> (r: u32)
    requires
        10 <= page_size_shift <= 16,
    ensures
        page_size == crate::univ::UNIV_PAGE_SIZE_ORIG ==> r == 0,
        page_size != crate::univ::UNIV_PAGE_SIZE_ORIG ==> r == (page_size_shift - 9) * 64,
{
    if page_size == crate::univ::UNIV_PAGE_SIZE_ORIG as usize {
        0u32
    } else {
        let s = (page_size_shift - crate::univ::UNIV_ZIP_SIZE_SHIFT_MIN as usize + 1) as u32;
        assert(s << 6u32 == s * 64) by (bit_vector)
            requires
                s <= 7,
        ;
        s << FSP_FLAGS_POS_PAGE_SSIZE
    }
}

/// The PAGE_SSIZE flags of the full checksum format for a page size log2.
#[allow(non_snake_case)]
pub fn FSP_FLAGS_FCRC32_PAGE_SSIZE(page_size_shift: usize) -> (r: u32)
    requires
        10 <= page_size_shift <= 16,
    ensures
        r == page_size_shift - 9,
{
    (page_size_shift - crate::univ::UNIV_ZIP_SIZE_SHIFT_MIN as usize + 1) as u32
}

/// Zero relative shift position of the PAGE_COMPRESSION field (MariaDB
/// 10.1.0 to 10.1.20).
pub const FSP_FLAGS_POS_PAGE_COMPRESSION_MARIADB101: u32 = 6;

/// Zero relative shift position of the PAGE_COMPRESSION_LEVEL field.
pub const FSP_FLAGS_POS_PAGE_COMPRESSION_LEVEL_MARIADB101: u32 = 7;

/// Zero relative shift position of the ATOMIC_WRITES field.
pub const FSP_FLAGS_POS_ATOMIC_WRITES_MARIADB101: u32 = 11;

/// Zero relative shift position of the PAGE_SSIZE field.
pub const FSP_FLAGS_POS_PAGE_SSIZE_MARIADB101: u32 = 13;

/// Bit mask of the PAGE_COMPRESSION field
pub const FSP_FLAGS_MASK_PAGE_COMPRESSION_MARIADB101: u32 = 0x40;

/// Bit mask of the PAGE_COMPRESSION_LEVEL field
pub const FSP_FLAGS_MASK_PAGE_COMPRESSION_LEVEL_MARIADB101: u32 = 0x780;

/// Bit mask of the ATOMIC_WRITES field
pub const FSP_FLAGS_MASK_ATOMIC_WRITES_MARIADB101: u32 = 0x1800;

/// Bit mask of the PAGE_SSIZE field
pub const FSP_FLAGS_MASK_PAGE_SSIZE_MARIADB101: u32 = 0x1_e000;

/// The PAGE_COMPRESSION field of MariaDB 10.1 flags
#[allow(non_snake_case)]
pub fn FSP_FLAGS_GET_PAGE_COMPRESSION_MARIADB101(flags: u32) -> (r: u32)
    ensures
        r == (flags & FSP_FLAGS_MASK_PAGE_COMPRESSION_MARIADB101)
            >> FSP_FLAGS_POS_PAGE_COMPRESSION_MARIADB101,
{
    (flags & FSP_FLAGS_MASK_PAGE_COMPRESSION_MARIADB101) >> FSP_FLAGS_POS_PAGE_COMPRESSION_MARIADB101
}

/// The PAGE_COMPRESSION_LEVEL field of MariaDB 10.1 flags
#[allow(non_snake_case)]
pub fn FSP_FLAGS_GET_PAGE_COMPRESSION_LEVEL_MARIADB101(flags: u32) -> (r: u32)
    ensures
        r == (flags & FSP_FLAGS_MASK_PAGE_COMPRESSION_LEVEL_MARIADB101)
            >> FSP_FLAGS_POS_PAGE_COMPRESSION_LEVEL_MARIADB101,
{
    (flags & FSP_FLAGS_MASK_PAGE_COMPRESSION_LEVEL_MARIADB101)
        >> FSP_FLAGS_POS_PAGE_COMPRESSION_LEVEL_MARIADB101
}

/// The PAGE_SSIZE field of MariaDB 10.1 flags
#[allow(non_snake_case)]
pub fn FSP_FLAGS_GET_PAGE_SSIZE_MARIADB101(flags: u32) -> (r: u32)
    ensures
        r == (flags & FSP_FLAGS_MASK_PAGE_SSIZE_MARIADB101) >> FSP_FLAGS_POS_PAGE_SSIZE_MARIADB101,
{
    (flags & FSP_FLAGS_MASK_PAGE_SSIZE_MARIADB101) >> FSP_FLAGS_POS_PAGE_SSIZE_MARIADB101
}

/// Offset of the space header within a file page
pub const FSP_HEADER_OFFSET: u32 = crate::fil0fil::FIL_PAGE_DATA;

/// space id
pub const FSP_SPACE_ID: u32 = 0;

/// not used now
pub const FSP_NOT_USED: u32 = 4;

/// Current size of the space in pages
pub const FSP_SIZE: u32 = 8;

/// Minimum page number for which the free list has not been initialized
pub const FSP_FREE_LIMIT: u32 = 12;

/// fsp_space_t.flags, similar to dict_table_t::flags
pub const FSP_SPACE_FLAGS: u32 = 16;

/// number of used pages in the FSP_FREE_FRAG list
pub const FSP_FRAG_N_USED: u32 = 20;

/// list of free extents
pub const FSP_FREE: u32 = 24;

/// list of partially free extents not belonging to any segment
pub const FSP_FREE_FRAG: u32 = 24 + FLST_BASE_NODE_SIZE;

/// list of full extents not belonging to any segment
pub const FSP_FULL_FRAG: u32 = 24 + 2 * FLST_BASE_NODE_SIZE;

/// 8 bytes which give the first unused segment id
pub const FSP_SEG_ID: u32 = 24 + 3 * FLST_BASE_NODE_SIZE;

/// list of pages containing segment headers, where all the segment inode
/// slots are reserved
pub const FSP_SEG_INODES_FULL: u32 = 32 + 3 * FLST_BASE_NODE_SIZE;

/// list of pages containing segment headers, where not all the segment header
/// slots are reserved
pub const FSP_SEG_INODES_FREE: u32 = 32 + 4 * FLST_BASE_NODE_SIZE;

/// File space header size
pub const FSP_HEADER_SIZE: u32 = 32 + 5 * FLST_BASE_NODE_SIZE;

/// this many free extents are added to the free list from above
/// FSP_FREE_LIMIT at a time
pub const FSP_FREE_ADD: u32 = 4;

/// the list node for linking segment inode pages
pub const FSEG_INODE_PAGE_NODE: u32 = crate::fsp0types::FSEG_PAGE_DATA;

pub const FSEG_ARR_OFFSET: u32 = crate::fsp0types::FSEG_PAGE_DATA + FLST_NODE_SIZE;

/// 8 bytes of segment id: if this is 0, it means that the header is unused
pub const FSEG_ID: u32 = 0;

/// number of used segment pages in the FSEG_NOT_FULL list
pub const FSEG_NOT_FULL_N_USED: u32 = 8;

/// list of free extents of this segment
pub const FSEG_FREE: u32 = 12;

/// list of partially free extents
pub const FSEG_NOT_FULL: u32 = 12 + FLST_BASE_NODE_SIZE;

/// list of full extents
pub const FSEG_FULL: u32 = 12 + 2 * FLST_BASE_NODE_SIZE;

/// magic number used in debugging
pub const FSEG_MAGIC_N: u32 = 12 + 3 * FLST_BASE_NODE_SIZE;

/// array of individual pages belonging to this segment in fsp fragment
/// extent lists
pub const FSEG_FRAG_ARR: u32 = 16 + 3 * FLST_BASE_NODE_SIZE;

/// a fragment page slot contains its page number within space, FIL_NULL
/// means that the slot is not in use
pub const FSEG_FRAG_SLOT_SIZE: u32 = 4;

/// If the reserved size of a segment is at least this many extents, we allow
/// extents to be put to the free list of the extent
pub const FSEG_FREE_LIST_LIMIT: u32 = 40;

pub const FSEG_FREE_LIST_MAX_LEN: u32 = 4;

/// The identifier of the segment to which this extent belongs
pub const XDES_ID: u32 = 0;

/// The list node data structure for the descriptors
pub const XDES_FLST_NODE: u32 = 8;

/// contains state information of the extent
pub const XDES_STATE: u32 = FLST_NODE_SIZE + 8;

/// Descriptor bitmap of the pages in the extent
pub const XDES_BITMAP: u32 = FLST_NODE_SIZE + 12;

/// How many bits are there per page
pub const XDES_BITS_PER_PAGE: u32 = 2;

/// Index of the bit which tells if the page is free
pub const XDES_FREE_BIT: u32 = 0;

/// Index of the bit which tells if there are old versions of tuples on the
/// page (not used)
pub const XDES_CLEAN_BIT: u32 = 1;

/// extent is in free list of space
pub const XDES_FREE: u32 = 1;

/// extent is in free fragment list of space
pub const XDES_FREE_FRAG: u32 = 2;

/// extent is in full fragment list of space
pub const XDES_FULL_FRAG: u32 = 3;

/// extent belongs to a segment
pub const XDES_FSEG: u32 = 4;

/// File extent data structure size in bytes for MAX page size.
pub const XDES_SIZE_MAX: u32 = XDES_BITMAP + 16;

/// File extent data structure size in bytes for MIN page size.
pub const XDES_SIZE_MIN: u32 = XDES_BITMAP + 64;

/// Offset of the descriptor array on a descriptor page
pub const XDES_ARR_OFFSET: u32 = FSP_HEADER_OFFSET + FSP_HEADER_SIZE;

/// The number of pages in an extent.
pub open spec fn extent_size(page_size_shift: u32) -> int {
    if page_size_shift < 14 {
        (0x10_0000u32 >> page_size_shift) as int
    } else {
        64
    }
}

/// number of slots in the array for the fragment pages
#[allow(non_snake_case)]
pub fn FSEG_FRAG_ARR_N_SLOTS(page_size_shift: u32) -> (r: u32)
    ensures
        r == extent_size(page_size_shift) / 2,
{
    FSP_EXTENT_SIZE(page_size_shift) / 2
}

/// The size of a file segment inode in bytes.
#[allow(non_snake_case)]
pub fn FSEG_INODE_SIZE(page_size_shift: u32) -> (r: u32)
    requires
        page_size_shift >= 12,
    ensures
        r == 16 + 3 * FLST_BASE_NODE_SIZE + (extent_size(page_size_shift) / 2) * FSEG_FRAG_SLOT_SIZE,
{
    let n = FSEG_FRAG_ARR_N_SLOTS(page_size_shift);
    assert(0x10_0000u32 >> page_size_shift <= 256) by (bit_vector)
        requires
            page_size_shift >= 12,
    ;
    16 + 3 * FLST_BASE_NODE_SIZE + n * FSEG_FRAG_SLOT_SIZE
}

/// File extent data structure size in bytes.
#[allow(non_snake_case)]
pub fn XDES_SIZE(page_size_shift: u32) -> (r: u32)
    requires
        page_size_shift >= 12,
    ensures
        r == XDES_BITMAP + (extent_size(page_size_shift) * XDES_BITS_PER_PAGE + 7) / 8,
{
    let e = FSP_EXTENT_SIZE(page_size_shift);
    assert(0x10_0000u32 >> page_size_shift <= 256) by (bit_vector)
        requires
            page_size_shift >= 12,
    ;
    XDES_BITMAP + UT_BITS_IN_BYTES(e * XDES_BITS_PER_PAGE)
}

} // verus!
