//! Tablespace flag fields and file space constants.
use vstd::prelude::*;

use crate::mach::{be_u16, be_u32, field, read_u16_at, read_u32_at};

verus! {

/// All persistent tablespaces have a smaller id than this.
pub const SRV_SPACE_ID_UPPER_BOUND: u32 = 0xFFFF_FFF0;

/// The id of the innodb_temporary tablespace.
pub const SRV_TMP_SPACE_ID: u32 = 0xFFFF_FFFE;

pub const PAGE_UNCOMPRESSED: u32 = 0;

pub const PAGE_ZLIB_ALGORITHM: u32 = 1;

pub const PAGE_LZ4_ALGORITHM: u32 = 2;

pub const PAGE_LZO_ALGORITHM: u32 = 3;

pub const PAGE_LZMA_ALGORITHM: u32 = 4;

pub const PAGE_BZIP2_ALGORITHM: u32 = 5;

pub const PAGE_SNAPPY_ALGORITHM: u32 = 6;

pub const PAGE_ALGORITHM_LAST: u32 = PAGE_SNAPPY_ALGORITHM;

/// alphabetically upwards
pub const FSP_UP: u8 = 111;

/// alphabetically downwards
pub const FSP_DOWN: u8 = 112;

/// no order
pub const FSP_NO_DIR: u8 = 113;

/// On a page of any file segment, data may be put starting from this offset.
pub const FSEG_PAGE_DATA: u32 = 38;

/// space id of the inode.
pub const FSEG_HDR_SPACE: u8 = 0;

/// page number of the inode.
pub const FSEG_HDR_PAGE_NO: u8 = 4;

/// byte offset of the inode.
pub const FSEG_HDR_OFFSET: u8 = 8;

/// Length of the file system header, in bytes.
pub const FSEG_HEADER_SIZE: u8 = 10;

/// A file segment header: the inode that describes the segment.
#[allow(non_camel_case_types)]
#[derive(Debug, Clone, Copy, PartialEq, Eq, Structural)]
pub struct fseg_header_t {
    /// space id of the inode
    pub space: u32,
    /// page number of the inode
    pub page_no: u32,
    /// byte offset of the inode
    pub offset: u16,
}

/// The file segment header at `off`.
pub open spec fn fseg_header_at(b: Seq<u8>, off: int) -> fseg_header_t {
    fseg_header_t {
        space: be_u32(field(b, off, 4)),
        page_no: be_u32(field(b, off + 4, 4)),
        offset: be_u16(field(b, off + 8, 2)),
    }
}

impl fseg_header_t {
    /// Reads a file segment header from the first 10 bytes of `buf`.
    pub fn from_buf(buf: &[u8]) -> (r: fseg_header_t)
        requires
            buf@.len() >= FSEG_HEADER_SIZE,
        ensures
            r == fseg_header_at(buf@, 0),
    {
        let space = read_u32_at(buf, FSEG_HDR_SPACE as usize);
        let page_no = read_u32_at(buf, FSEG_HDR_PAGE_NO as usize);
        let offset = read_u16_at(buf, FSEG_HDR_OFFSET as usize);
        fseg_header_t { space, page_no, offset }
    }
}

/// extent descriptor in every tablespace.
pub const FSP_XDES_OFFSET: u32 = 0;

/// the following pages exist in the system tablespace (space 0).
pub const FSP_FIRST_INODE_PAGE_NO: u32 = 2;

/// former change buffer header page, in tablespace 0.
pub const FSP_IBUF_HEADER_PAGE_NO: u32 = 3;

/// former change buffer B-tree root page in tablespace 0.
pub const FSP_IBUF_TREE_ROOT_PAGE_NO: u32 = 4;

/// transaction system header, in tablespace 0.
pub const FSP_TRX_SYS_PAGE_NO: u32 = 5;

/// first rollback segment page, in tablespace 0.
pub const FSP_FIRST_RSEG_PAGE_NO: u32 = 6;

/// data dictionary header page, in tablespace 0.
pub const FSP_DICT_HDR_PAGE_NO: u32 = 7;

/// File space extent size (four megabyte) in pages for MAX page size
pub const FSP_EXTENT_SIZE_MAX: u32 = 64;

/// File space extent size (one megabyte) in pages for MIN page size
pub const FSP_EXTENT_SIZE_MIN: u32 = 256;

/// Flags for fsp_reserve_free_extents
#[allow(non_camel_case_types)]
#[derive(Debug, Clone, Copy, PartialEq, Eq, Structural)]
pub enum fsp_reserve_t {
    /// reservation during normal B-tree operations
    FSP_NORMAL,
    /// reservation done for undo logging
    FSP_UNDO,
    /// reservation done during purge operations
    FSP_CLEANING,
    /// reservation being done for BLOB insertion
    FSP_BLOB,
}

pub const FSP_FLAGS_WIDTH_POST_ANTELOPE: u32 = 1;

pub const FSP_FLAGS_WIDTH_ZIP_SSIZE: u32 = 4;

pub const FSP_FLAGS_WIDTH_ATOMIC_BLOBS: u32 = 1;

pub const FSP_FLAGS_WIDTH_PAGE_SSIZE: u32 = 4;

pub const FSP_FLAGS_WIDTH_RESERVED: u32 = 6;

pub const FSP_FLAGS_WIDTH_PAGE_COMPRESSION: u32 = 1;

/// Width of all the currently known persistent tablespace flags
pub const FSP_FLAGS_WIDTH: u32 = 17;

/// A mask of all the known/used bits in FSP_SPACE_FLAGS
pub const FSP_FLAGS_MASK: u32 = 0x1_ffff;

pub const FSP_FLAGS_FCRC32_WIDTH_PAGE_SSIZE: u32 = 4;

pub const FSP_FLAGS_FCRC32_WIDTH_MARKER: u32 = 1;

pub const FSP_FLAGS_FCRC32_WIDTH_COMPRESSED_ALGO: u32 = 3;

/// Zero relative shift position of the DATA_DIR flag
pub const FSP_FLAGS_MEM_DATA_DIR: u32 = 27;

/// Zero relative shift position of the COMPRESSION_LEVEL field
pub const FSP_FLAGS_MEM_COMPRESSION_LEVEL: u32 = 28;

/// A mask of the memory-only flags in fil_space_t::flags
pub const FSP_FLAGS_MEM_MASK: u32 = 0xf800_0000;

pub const FSP_FLAGS_POS_POST_ANTELOPE: u32 = 0;

pub const FSP_FLAGS_POS_ZIP_SSIZE: u32 = 1;

pub const FSP_FLAGS_POS_ATOMIC_BLOBS: u32 = 5;

pub const FSP_FLAGS_POS_PAGE_SSIZE: u32 = 6;

pub const FSP_FLAGS_POS_RESERVED: u32 = 10;

pub const FSP_FLAGS_POS_PAGE_COMPRESSION: u32 = 16;

pub const FSP_FLAGS_FCRC32_POS_PAGE_SSIZE: u32 = 0;

pub const FSP_FLAGS_FCRC32_POS_MARKER: u32 = 4;

pub const FSP_FLAGS_FCRC32_POS_COMPRESSED_ALGO: u32 = 5;

pub const FSP_FLAGS_MASK_POST_ANTELOPE: u32 = 0x1;

pub const FSP_FLAGS_MASK_ZIP_SSIZE: u32 = 0x1e;

pub const FSP_FLAGS_MASK_ATOMIC_BLOBS: u32 = 0x20;

pub const FSP_FLAGS_MASK_PAGE_SSIZE: u32 = 0x3c0;

pub const FSP_FLAGS_MASK_RESERVED: u32 = 0xfc00;

pub const FSP_FLAGS_MASK_PAGE_COMPRESSION: u32 = 0x1_0000;

pub const FSP_FLAGS_MASK_MEM_COMPRESSION_LEVEL: u32 = 0xf000_0000;

pub const FSP_FLAGS_FCRC32_MASK_PAGE_SSIZE: u32 = 0xf;

pub const FSP_FLAGS_FCRC32_MASK_MARKER: u32 = 0x10;

pub const FSP_FLAGS_FCRC32_MASK_COMPRESSED_ALGO: u32 = 0xe0;

/// File space extent size in pages: 1 MiB of pages up to 16 KiB pages, 64
/// pages above.
#[allow(non_snake_case)]
pub fn FSP_EXTENT_SIZE(page_size_shift: u32) -> (r: u32)
    ensures
        page_size_shift < 14 ==> r == 0x10_0000u32 >> page_size_shift,
        page_size_shift >= 14 ==> r == 64,
{
    if page_size_shift < 14 {
        0x10_0000u32 >> page_size_shift
    } else {
        64
    }
}

/// Whether the tablespace is the system temporary one.
#[allow(non_snake_case)]
pub fn FSP_IS_SYSTEM_TEMPORARY(space_id: u32) -> (r: bool)
    ensures
        r == (space_id == SRV_TMP_SPACE_ID),
{
    space_id == SRV_TMP_SPACE_ID
}

/// The value of the POST_ANTELOPE field
#[allow(non_snake_case)]
pub fn FSP_FLAGS_GET_POST_ANTELOPE(flags: u32) -> (r: u32)
    ensures
        r == (flags & FSP_FLAGS_MASK_POST_ANTELOPE) >> FSP_FLAGS_POS_POST_ANTELOPE,
{
    (flags & FSP_FLAGS_MASK_POST_ANTELOPE) >> FSP_FLAGS_POS_POST_ANTELOPE
}

/// The value of the ZIP_SSIZE field
#[allow(non_snake_case)]
pub fn FSP_FLAGS_GET_ZIP_SSIZE(flags: u32) -> (r: u32)
    ensures
        r == (flags & FSP_FLAGS_MASK_ZIP_SSIZE) >> FSP_FLAGS_POS_ZIP_SSIZE,
{
    (flags & FSP_FLAGS_MASK_ZIP_SSIZE) >> FSP_FLAGS_POS_ZIP_SSIZE
}

/// The value of the ATOMIC_BLOBS field
#[allow(non_snake_case)]
pub fn FSP_FLAGS_HAS_ATOMIC_BLOBS(flags: u32) -> (r: u32)
    ensures
        r == (flags & FSP_FLAGS_MASK_ATOMIC_BLOBS) >> FSP_FLAGS_POS_ATOMIC_BLOBS,
{
    (flags & FSP_FLAGS_MASK_ATOMIC_BLOBS) >> FSP_FLAGS_POS_ATOMIC_BLOBS
}

/// The value of the PAGE_SSIZE field
#[allow(non_snake_case)]
pub fn FSP_FLAGS_GET_PAGE_SSIZE(flags: u32) -> (r: u32)
    ensures
        r == (flags & FSP_FLAGS_MASK_PAGE_SSIZE) >> FSP_FLAGS_POS_PAGE_SSIZE,
{
    (flags & FSP_FLAGS_MASK_PAGE_SSIZE) >> FSP_FLAGS_POS_PAGE_SSIZE
}

/// The RESERVED flags
#[allow(non_snake_case)]
pub fn FSP_FLAGS_GET_RESERVED(flags: u32) -> (r: u32)
    ensures
        r == (flags & FSP_FLAGS_MASK_RESERVED) >> FSP_FLAGS_POS_RESERVED,
{
    (flags & FSP_FLAGS_MASK_RESERVED) >> FSP_FLAGS_POS_RESERVED
}

/// The PAGE_COMPRESSION flag
#[allow(non_snake_case)]
pub fn FSP_FLAGS_HAS_PAGE_COMPRESSION(flags: u32) -> (r: u32)
    ensures
        r == (flags & FSP_FLAGS_MASK_PAGE_COMPRESSION) >> FSP_FLAGS_POS_PAGE_COMPRESSION,
{
    (flags & FSP_FLAGS_MASK_PAGE_COMPRESSION) >> FSP_FLAGS_POS_PAGE_COMPRESSION
}

/// The PAGE_SSIZE field in full crc32 format
#[allow(non_snake_case)]
pub fn FSP_FLAGS_FCRC32_GET_PAGE_SSIZE(flags: u32) -> (r: u32)
    ensures
        r == (flags & FSP_FLAGS_FCRC32_MASK_PAGE_SSIZE) >> FSP_FLAGS_FCRC32_POS_PAGE_SSIZE,
{
    (flags & FSP_FLAGS_FCRC32_MASK_PAGE_SSIZE) >> FSP_FLAGS_FCRC32_POS_PAGE_SSIZE
}

/// The COMPRESSED_ALGO field in full crc32 format
#[allow(non_snake_case)]
pub fn FSP_FLAGS_FCRC32_GET_COMPRESSED_ALGO(flags: u32) -> (r: u32)
    ensures
        r == (flags & FSP_FLAGS_FCRC32_MASK_COMPRESSED_ALGO) >> FSP_FLAGS_FCRC32_POS_COMPRESSED_ALGO,
{
    (flags & FSP_FLAGS_FCRC32_MASK_COMPRESSED_ALGO) >> FSP_FLAGS_FCRC32_POS_COMPRESSED_ALGO
}

/// The DATA_DIR field (in memory only)
#[allow(non_snake_case)]
pub fn FSP_FLAGS_HAS_DATA_DIR(flags: u32) -> (r: u32)
    ensures
        r == flags & (1u32 << FSP_FLAGS_MEM_DATA_DIR),
{
    flags & (1u32 << FSP_FLAGS_MEM_DATA_DIR)
}

/// The COMPRESSION_LEVEL field (in memory only)
#[allow(non_snake_case)]
pub fn FSP_FLAGS_GET_PAGE_COMPRESSION_LEVEL(flags: u32) -> (r: u32)
    ensures
        r == (flags & FSP_FLAGS_MASK_MEM_COMPRESSION_LEVEL) >> FSP_FLAGS_MEM_COMPRESSION_LEVEL,
{
    (flags & FSP_FLAGS_MASK_MEM_COMPRESSION_LEVEL) >> FSP_FLAGS_MEM_COMPRESSION_LEVEL
}

} // verus!
