//! File page layout: header and trailer offsets, page types, and the
//! tablespace flag rules.
use vstd::prelude::*;
use vstd::string::StringExecFns;

use crate::text::{decimal, hex8, push_decimal, push_hex8};

use crate::error::Error;
use crate::fsp0types::{
    FSP_FLAGS_FCRC32_GET_COMPRESSED_ALGO, FSP_FLAGS_FCRC32_GET_PAGE_SSIZE,
    FSP_FLAGS_FCRC32_MASK_MARKER, FSP_FLAGS_FCRC32_POS_COMPRESSED_ALGO, FSP_FLAGS_GET_PAGE_SSIZE,
    FSP_FLAGS_GET_RESERVED, FSP_FLAGS_GET_ZIP_SSIZE, FSP_FLAGS_MASK, FSP_FLAGS_MASK_ATOMIC_BLOBS,
    FSP_FLAGS_MASK_PAGE_SSIZE, FSP_FLAGS_MASK_POST_ANTELOPE, FSP_FLAGS_MASK_RESERVED,
    FSP_FLAGS_MASK_ZIP_SSIZE, FSP_FLAGS_POS_PAGE_SSIZE, FSP_FLAGS_POS_RESERVED,
    FSP_FLAGS_POS_ZIP_SSIZE, PAGE_ALGORITHM_LAST,
};
use crate::mach::{be_u16, be_u32, field, read_u16_at, read_u32_at, u16_be, u32_be, write_u16_at, write_u32_at, overwrite};

verus! {

/// Common InnoDB file extensions
#[allow(non_camel_case_types)]
#[derive(Debug, Clone, Copy, PartialEq, Eq, Structural)]
pub enum ib_extention {
    NO_EXT,
    IBD,
    ISL,
    CFG,
}

/// Initial size of a single-table tablespace in pages
pub const FIL_IBD_FILE_INITIAL_SIZE: u32 = 4;

/// 'null' (undefined) page offset in the context of file spaces
pub const FIL_NULL: u32 = crate::univ::ULINT32_UNDEFINED;

/// first in address is the page offset
pub const FIL_ADDR_PAGE: u32 = 0;

/// then comes 2-byte byte offset within page
pub const FIL_ADDR_BYTE: u32 = 4;

/// address size is 6 bytes
pub const FIL_ADDR_SIZE: u32 = 6;

/// File space address
#[allow(non_camel_case_types)]
#[derive(Debug, Clone, Copy, PartialEq, Eq, Structural)]
pub struct fil_addr_t {
    /// page number within a tablespace
    pub page: u32,
    /// byte offset within the page
    pub boffset: u16,
}

impl fil_addr_t {
    /// Reads a file address from the first 6 bytes of `buf`.
    pub fn from_buf(buf: &[u8]) -> (r: fil_addr_t)
        requires
            buf@.len() >= FIL_ADDR_SIZE,
        ensures
            r.page == be_u32(buf@),
            r.boffset == be_u16(field(buf@, 4, 2)),
    {
        let page = read_u32_at(buf, 0);
        let boffset = read_u16_at(buf, 4);
        assert(field(buf@, 0, 4) =~= buf@.subrange(0, 4));
        fil_addr_t { page, boffset }
    }

    /// Writes the address into the first 6 bytes of `buf`; returns their
    /// number.
    pub fn read(&mut self, buf: &mut [u8]) -> (r: Result<usize, Error>)
        ensures
            *final(self) == *old(self),
            old(buf)@.len() < FIL_ADDR_SIZE ==> r == Err::<usize, Error>(Error::InvalidInput)
                && final(buf)@ == old(buf)@,
            old(buf)@.len() >= FIL_ADDR_SIZE ==> r == Ok::<usize, Error>(6) && final(buf)@
                == overwrite(old(buf)@, 0, u32_be(old(self).page) + u16_be(old(self).boffset)),
    {
        if buf.len() < FIL_ADDR_SIZE as usize {
            return Err(Error::InvalidInput);
        }
        let ghost b0 = buf@;
        write_u32_at(buf, FIL_ADDR_PAGE as usize, self.page);
        write_u16_at(buf, FIL_ADDR_BYTE as usize, self.boffset);
        assert(buf@ =~= overwrite(b0, 0, u32_be(self.page) + u16_be(self.boffset)));
        Ok(FIL_ADDR_SIZE as usize)
    }
}

impl Default for fil_addr_t {
    fn default() -> (r: fil_addr_t)
        ensures
            r.page == FIL_NULL,
            r.boffset == 0,
    {
        fil_addr_t { page: FIL_NULL, boffset: 0 }
    }
}

/// in < MySQL-4.0.14 space id the page belongs to (== 0) but in later
/// versions the 'new' checksum of the page.
pub const FIL_PAGE_SPACE_OR_CHKSUM: u32 = 0;

/// page offset inside space.
pub const FIL_PAGE_OFFSET: u32 = 4;

/// the offset of the 'natural' predecessor of the page, or FIL_NULL.
pub const FIL_PAGE_PREV: u32 = 8;

/// the offset of the 'natural' successor of the page, or FIL_NULL.
pub const FIL_PAGE_NEXT: u32 = 12;

/// lsn of the end of the newest modification log record to the page.
pub const FIL_PAGE_LSN: u32 = 16;

/// file page type: FIL_PAGE_INDEX,..., 2 bytes.
pub const FIL_PAGE_TYPE: u32 = 24;

/// the flush LSN of the first page of a system tablespace data file, or the
/// key version and checksum of an encrypted page.
pub const FIL_PAGE_FILE_FLUSH_LSN_OR_KEY_VERSION: u32 = 26;

/// This overloads FIL_PAGE_FILE_FLUSH_LSN for RTREE Split Sequence Number
pub const FIL_RTREE_SPLIT_SEQ_NUM: u32 = FIL_PAGE_FILE_FLUSH_LSN_OR_KEY_VERSION;

/// Start of the page_compressed content
pub const FIL_PAGE_COMP_ALGO: u32 = FIL_PAGE_FILE_FLUSH_LSN_OR_KEY_VERSION;

/// starting from 4.1.x this contains the space id of the page
pub const FIL_PAGE_ARCH_LOG_NO_OR_SPACE_ID: u32 = 34;

pub const FIL_PAGE_SPACE_ID: u32 = FIL_PAGE_ARCH_LOG_NO_OR_SPACE_ID;

/// start of the data on the page.
pub const FIL_PAGE_DATA: u32 = 38;

/// 32-bit key version used to encrypt the page in full_crc32 format.
pub const FIL_PAGE_FCRC32_KEY_VERSION: u32 = 0;

/// Number of bytes used to store actual payload data size on page_compressed
/// pages when not using full_crc32.
pub const FIL_PAGE_COMP_SIZE: u32 = 0;

/// Number of bytes for FIL_PAGE_COMP_SIZE
pub const FIL_PAGE_COMP_METADATA_LEN: u32 = 2;

/// Number of bytes used to store actual compression method for encrypted
/// tables when not using full_crc32.
pub const FIL_PAGE_ENCRYPT_COMP_ALGO: u32 = 2;

/// Extra header size for encrypted page_compressed pages when not using
/// full_crc32
pub const FIL_PAGE_ENCRYPT_COMP_METADATA_LEN: u32 = 4;

/// the low 4 bytes of this are used to store the page checksum, the last 4
/// bytes should be identical to the last 4 bytes of FIL_PAGE_LSN.
pub const FIL_PAGE_END_LSN_OLD_CHKSUM: u32 = 8;

/// size of the page trailer.
pub const FIL_PAGE_DATA_END: u32 = 8;

/// Store the last 4 bytes of FIL_PAGE_LSN
pub const FIL_PAGE_FCRC32_END_LSN: u32 = 8;

/// Store crc32 checksum at the end of the page
pub const FIL_PAGE_FCRC32_CHECKSUM: u32 = 4;

/// page_compressed, encrypted=YES (not used for full_crc32)
pub const FIL_PAGE_PAGE_COMPRESSED_ENCRYPTED: u16 = 37401;

/// page_compressed (not used for full_crc32)
pub const FIL_PAGE_PAGE_COMPRESSED: u16 = 34354;

/// B-tree index page
pub const FIL_PAGE_INDEX: u16 = 17855;

/// R-tree index page (SPATIAL INDEX)
pub const FIL_PAGE_RTREE: u16 = 17854;

/// Undo log page
pub const FIL_PAGE_UNDO_LOG: u16 = 2;

/// Index node (of file-in-file metadata)
pub const FIL_PAGE_INODE: u16 = 3;

/// Former change buffer free list
pub const FIL_PAGE_IBUF_FREE_LIST: u16 = 4;

/// Freshly allocated page
pub const FIL_PAGE_TYPE_ALLOCATED: u16 = 0;

/// Former change buffer bitmap pages (pages n*innodb_page_size+1)
pub const FIL_PAGE_IBUF_BITMAP: u16 = 5;

/// System page
pub const FIL_PAGE_TYPE_SYS: u16 = 6;

/// Transaction system data
pub const FIL_PAGE_TYPE_TRX_SYS: u16 = 7;

/// Tablespace header (page 0)
pub const FIL_PAGE_TYPE_FSP_HDR: u16 = 8;

/// Extent descriptor page (pages n*innodb_page_size, except 0)
pub const FIL_PAGE_TYPE_XDES: u16 = 9;

/// Uncompressed BLOB page
pub const FIL_PAGE_TYPE_BLOB: u16 = 10;

/// First ROW_FORMAT=COMPRESSED BLOB page
pub const FIL_PAGE_TYPE_ZBLOB: u16 = 11;

/// Subsequent ROW_FORMAT=COMPRESSED BLOB page
pub const FIL_PAGE_TYPE_ZBLOB2: u16 = 12;

/// In old tablespaces, garbage in FIL_PAGE_TYPE is replaced with this value
/// when flushing pages.
pub const FIL_PAGE_TYPE_UNKNOWN: u16 = 13;

/// Clustered index root page after instant ADD COLUMN
pub const FIL_PAGE_TYPE_INSTANT: u16 = 18;

/// The last page type that has a text description.
pub const FIL_PAGE_TYPE_LAST: u16 = FIL_PAGE_TYPE_UNKNOWN;

/// Set in FIL_PAGE_TYPE for full_crc32 pages in page_compressed format; bits
/// 0..7 then hold the compressed page size in units of 256 bytes.
pub const FIL_PAGE_COMPRESS_FCRC32_MARKER: u16 = 15;

/// The kinds of file pages.
#[allow(non_camel_case_types)]
#[derive(Debug, Clone, Copy, PartialEq, Eq, Structural)]
pub enum fil_page_type_t {
    PageCompressedEncrypted,
    PageCompressed,
    Index,
    RTree,
    UndoLog,
    Inode,
    IbufFreeList,
    Allocated,
    IbufBitmap,
    Sys,
    TrxSys,
    FspHdr,
    Xdes,
    Blob,
    ZBlob,
    ZBlob2,
    Unknown,
    Instant,
}

/// The kind of a page type value; unknown values are `Unknown`.
pub open spec fn page_type_of(value: u16) -> fil_page_type_t {
    if value == FIL_PAGE_PAGE_COMPRESSED_ENCRYPTED {
        fil_page_type_t::PageCompressedEncrypted
    } else if value == FIL_PAGE_PAGE_COMPRESSED {
        fil_page_type_t::PageCompressed
    } else if value == FIL_PAGE_INDEX {
        fil_page_type_t::Index
    } else if value == FIL_PAGE_RTREE {
        fil_page_type_t::RTree
    } else if value == FIL_PAGE_UNDO_LOG {
        fil_page_type_t::UndoLog
    } else if value == FIL_PAGE_INODE {
        fil_page_type_t::Inode
    } else if value == FIL_PAGE_IBUF_FREE_LIST {
        fil_page_type_t::IbufFreeList
    } else if value == FIL_PAGE_TYPE_ALLOCATED {
        fil_page_type_t::Allocated
    } else if value == FIL_PAGE_IBUF_BITMAP {
        fil_page_type_t::IbufBitmap
    } else if value == FIL_PAGE_TYPE_SYS {
        fil_page_type_t::Sys
    } else if value == FIL_PAGE_TYPE_TRX_SYS {
        fil_page_type_t::TrxSys
    } else if value == FIL_PAGE_TYPE_FSP_HDR {
        fil_page_type_t::FspHdr
    } else if value == FIL_PAGE_TYPE_XDES {
        fil_page_type_t::Xdes
    } else if value == FIL_PAGE_TYPE_BLOB {
        fil_page_type_t::Blob
    } else if value == FIL_PAGE_TYPE_ZBLOB {
        fil_page_type_t::ZBlob
    } else if value == FIL_PAGE_TYPE_ZBLOB2 {
        fil_page_type_t::ZBlob2
    } else if value == FIL_PAGE_TYPE_INSTANT {
        fil_page_type_t::Instant
    } else {
        fil_page_type_t::Unknown
    }
}

impl fil_page_type_t {
    /// The kind of a page type value; unknown values are `Unknown`.
    pub fn from_u16(value: u16) -> (r: fil_page_type_t)
        ensures
            r == page_type_of(value),
    {
        if value == FIL_PAGE_PAGE_COMPRESSED_ENCRYPTED {
            fil_page_type_t::PageCompressedEncrypted
        } else if value == FIL_PAGE_PAGE_COMPRESSED {
            fil_page_type_t::PageCompressed
        } else if value == FIL_PAGE_INDEX {
            fil_page_type_t::Index
        } else if value == FIL_PAGE_RTREE {
            fil_page_type_t::RTree
        } else if value == FIL_PAGE_UNDO_LOG {
            fil_page_type_t::UndoLog
        } else if value == FIL_PAGE_INODE {
            fil_page_type_t::Inode
        } else if value == FIL_PAGE_IBUF_FREE_LIST {
            fil_page_type_t::IbufFreeList
        } else if value == FIL_PAGE_TYPE_ALLOCATED {
            fil_page_type_t::Allocated
        } else if value == FIL_PAGE_IBUF_BITMAP {
            fil_page_type_t::IbufBitmap
        } else if value == FIL_PAGE_TYPE_SYS {
            fil_page_type_t::Sys
        } else if value == FIL_PAGE_TYPE_TRX_SYS {
            fil_page_type_t::TrxSys
        } else if value == FIL_PAGE_TYPE_FSP_HDR {
            fil_page_type_t::FspHdr
        } else if value == FIL_PAGE_TYPE_XDES {
            fil_page_type_t::Xdes
        } else if value == FIL_PAGE_TYPE_BLOB {
            fil_page_type_t::Blob
        } else if value == FIL_PAGE_TYPE_ZBLOB {
            fil_page_type_t::ZBlob
        } else if value == FIL_PAGE_TYPE_ZBLOB2 {
            fil_page_type_t::ZBlob2
        } else if value == FIL_PAGE_TYPE_INSTANT {
            fil_page_type_t::Instant
        } else {
            fil_page_type_t::Unknown
        }
    }
}

/// Whether the flags select the full_crc32 format.
pub open spec fn is_full_crc32(flags: u32) -> bool {
    flags & FSP_FLAGS_FCRC32_MASK_MARKER != 0
}

/// The page size shift (log2 - 9) that the flags hold.
pub open spec fn flags_page_ssize(flags: u32) -> u32 {
    if is_full_crc32(flags) {
        flags & 0xf
    } else {
        (flags & FSP_FLAGS_MASK_PAGE_SSIZE) >> FSP_FLAGS_POS_PAGE_SSIZE
    }
}

/// The logical page size that the flags give, 0 where they give none.
pub open spec fn logical_size_of(flags: u32) -> int {
    let s = flags_page_ssize(flags);
    if is_full_crc32(flags) {
        // PAGE_SSIZE 3..=7: 4 KiB to 64 KiB
        if 3 <= s <= 7 {
            (512u32 << s) as int
        } else {
            0
        }
    } else if s == 0 {
        // the 16 KiB default
        16384
    } else if s == 3 || s == 4 || s == 6 || s == 7 {
        (512u32 << s) as int
    } else {
        0
    }
}

/// The ROW_FORMAT=COMPRESSED page size that the flags give, 0 where none.
pub open spec fn zip_size_of(flags: u32) -> int {
    let z = (flags & FSP_FLAGS_MASK_ZIP_SSIZE) >> FSP_FLAGS_POS_ZIP_SSIZE;
    if is_full_crc32(flags) || z == 0 {
        0
    } else {
        (512u32 << z) as int
    }
}

/// The physical page size of pages with these flags, where `page_size` is
/// the configured one.
pub open spec fn physical_size_of(flags: u32, page_size: int) -> int {
    if is_full_crc32(flags) {
        logical_size_of(flags)
    } else if zip_size_of(flags) != 0 {
        zip_size_of(flags)
    } else {
        page_size
    }
}

/// The validity rules of the full_crc32 flags.
pub open spec fn fcrc32_flags_valid(flags: u32, page_size: int) -> bool {
    let s = physical_size_of(flags, page_size);
    s >= 3 && (s as u32) & 8 == 0 && flags >> FSP_FLAGS_FCRC32_POS_COMPRESSED_ALGO
        <= PAGE_ALGORITHM_LAST
}

/// The validity rules of tablespace flags: in the full_crc32 layout a
/// PAGE_SSIZE of 3..=7 and a compression algorithm of at most
/// PAGE_ALGORITHM_LAST with no higher bits; otherwise only known fields,
/// ATOMIC_BLOBS only with POST_ANTELOPE, no reserved bit but DATA_DIR, a
/// PAGE_SSIZE of 0, 3, 4, 6 or 7, a ZIP_SSIZE of 0 or up to the page size
/// shift (5 for the default) with both row format bits, and no nonzero
/// PAGE_SSIZE in an .ibd file with the default 16 KiB page size.
pub open spec fn flags_valid(flags: u32, is_ibd: bool, page_size: int) -> bool {
    let ssize = (flags & FSP_FLAGS_MASK_PAGE_SSIZE) >> FSP_FLAGS_POS_PAGE_SSIZE;
    let zssize = (flags & FSP_FLAGS_MASK_ZIP_SSIZE) >> FSP_FLAGS_POS_ZIP_SSIZE;
    let post_antelope = flags & FSP_FLAGS_MASK_POST_ANTELOPE != 0;
    let atomic_blobs = flags & FSP_FLAGS_MASK_ATOMIC_BLOBS != 0;
    let reserved = (flags & FSP_FLAGS_MASK_RESERVED) >> FSP_FLAGS_POS_RESERVED;
    if is_full_crc32(flags) {
        3 <= flags & 0xf <= 7 && flags >> FSP_FLAGS_FCRC32_POS_COMPRESSED_ALGO
            <= PAGE_ALGORITHM_LAST
    } else {
        flags == 0 || {
            &&& flags & !FSP_FLAGS_MASK == 0
            &&& atomic_blobs ==> post_antelope
            &&& reserved & !1u32 == 0
            &&& (ssize == 0 || ssize == 3 || ssize == 4 || ssize == 6 || ssize == 7)
            &&& zssize != 0 ==> zssize <= (if ssize != 0 {
                ssize
            } else {
                5
            }) && post_antelope && atomic_blobs
            &&& ssize == 0 || !is_ibd || page_size != crate::univ::UNIV_PAGE_SIZE_ORIG
        }
    }
}

/// Whether the full_crc32 algorithm is active for a data file.
pub fn full_crc32(flags: u32) -> (r: bool)
    ensures
        r == is_full_crc32(flags),
{
    flags & FSP_FLAGS_FCRC32_MASK_MARKER != 0
}

/// Whether the flags select full_crc32 with page compression.
pub fn is_full_crc32_compressed(flags: u32) -> (r: bool)
    ensures
        r == (is_full_crc32(flags) && (flags & 0xe0) >> 5u32 != 0),
{
    if !full_crc32(flags) {
        return false;
    }
    let algo = FSP_FLAGS_FCRC32_GET_COMPRESSED_ALGO(flags);
    algo != 0
}

/// The logical page size, or 0 if the flags are invalid.
pub fn logical_size(flags: u32) -> (r: usize)
    ensures
        r == logical_size_of(flags),
{
    let page_ssize = if full_crc32(flags) {
        FSP_FLAGS_FCRC32_GET_PAGE_SSIZE(flags)
    } else {
        FSP_FLAGS_GET_PAGE_SSIZE(flags)
    };
    assert((flags & 0xfu32) >> 0u32 == flags & 0xf) by (bit_vector);
    assert((512u32 << 3u32) == 4096 && (512u32 << 4u32) == 8192 && (512u32 << 5u32) == 16384
        && (512u32 << 6u32) == 32768 && (512u32 << 7u32) == 65536) by (bit_vector);
    if page_ssize == 3 {
        4096
    } else if page_ssize == 4 {
        8192
    } else if page_ssize == 5 {
        if full_crc32(flags) {
            16384
        } else {
            0
        }
    } else if page_ssize == 0 {
        if full_crc32(flags) {
            0
        } else {
            16384
        }
    } else if page_ssize == 6 {
        32768
    } else if page_ssize == 7 {
        65536
    } else {
        0
    }
}

/// The ROW_FORMAT=COMPRESSED page size, or 0 if not used.
pub fn zip_size(flags: u32) -> (r: u32)
    ensures
        r == zip_size_of(flags),
{
    if full_crc32(flags) {
        return 0;
    }
    let zip_ssize = FSP_FLAGS_GET_ZIP_SSIZE(flags);
    if zip_ssize != 0 {
        assert(zip_ssize <= 15) by (bit_vector)
            requires
                zip_ssize == (flags & 0x1eu32) >> 1u32,
        ;
        512u32 << zip_ssize
    } else {
        0
    }
}

/// The physical page size.
pub fn physical_size(flags: u32, page_size: usize) -> (r: usize)
    ensures
        r == physical_size_of(flags, page_size as int),
{
    if full_crc32(flags) {
        return logical_size(flags);
    }
    let z = zip_size(flags);
    if z != 0 {
        z as usize
    } else {
        page_size
    }
}

/// Validate the tablespace flags for full crc32 format.
pub fn is_fcrc32_valid_flags(flags: u32, page_size: usize) -> (r: bool)
    ensures
        r == fcrc32_flags_valid(flags, page_size as int),
{
    let page_ssize = physical_size(flags, page_size);
    if page_ssize < 3 || (page_ssize as u32) & 8 != 0 {
        return false;
    }
    let shifted_flags = flags >> FSP_FLAGS_FCRC32_POS_COMPRESSED_ALGO;
    shifted_flags <= PAGE_ALGORITHM_LAST
}

/// Validate the tablespace flags; `is_ibd` tells an .ibd file from the
/// system tablespace, `page_size` is the configured page size.
pub fn is_valid_flags(flags: u32, is_ibd: bool, page_size: usize) -> (r: bool)
    ensures
        r == flags_valid(flags, is_ibd, page_size as int),
{
    if full_crc32(flags) {
        let r = is_fcrc32_valid_flags(flags, page_size);
        proof {
            assert(flags & 0xfu32 <= 15) by (bit_vector);
            assert((512u32 << 3u32) == 4096 && (512u32 << 4u32) == 8192 && (512u32 << 5u32)
                == 16384 && (512u32 << 6u32) == 32768 && (512u32 << 7u32) == 65536)
                by (bit_vector);
            assert((4096u32 & 8) == 0 && (8192u32 & 8) == 0 && (16384u32 & 8) == 0 && (32768u32
                & 8) == 0 && (65536u32 & 8) == 0) by (bit_vector);
            assert((flags & 0xfu32) >> 0u32 == flags & 0xf) by (bit_vector);
        }
        return r;
    }
    if flags == 0 {
        return true;
    }
    if (flags & !FSP_FLAGS_MASK) != 0 {
        return false;
    }
    assert(FSP_FLAGS_MASK_POST_ANTELOPE | FSP_FLAGS_MASK_ATOMIC_BLOBS == 0x21u32) by (bit_vector);
    assert(((flags & 0x21u32) == 0x20u32) <==> (flags & 0x20u32 != 0 && flags & 1u32 == 0))
        by (bit_vector);
    assert(((!flags & 0x21u32) != 0) <==> !(flags & 1u32 != 0 && flags & 0x20u32 != 0))
        by (bit_vector);
    if (flags & (FSP_FLAGS_MASK_POST_ANTELOPE | FSP_FLAGS_MASK_ATOMIC_BLOBS))
        == FSP_FLAGS_MASK_ATOMIC_BLOBS {
        // ATOMIC_BLOBS (ROW_FORMAT=DYNAMIC or COMPRESSED) needs ROW_FORMAT!=REDUNDANT.
        return false;
    }
    // Bits 10..14 hold at most the DATA_DIR flag.
    if (FSP_FLAGS_GET_RESERVED(flags) & !1u32) != 0 {
        return false;
    }
    let ssize = FSP_FLAGS_GET_PAGE_SSIZE(flags);
    assert(ssize <= 15 && (ssize & 8 != 0 <==> ssize >= 8)) by (bit_vector)
        requires
            ssize == (flags & 0x3c0u32) >> 6u32,
    ;
    if ssize == 1 || ssize == 2 || ssize == 5 || (ssize & 8) != 0 {
        // 16k is encoded as 0, not 5
        return false;
    }
    let zssize = FSP_FLAGS_GET_ZIP_SSIZE(flags);
    if zssize == 0 {
    } else if zssize > if ssize != 0 {
        ssize
    } else {
        5
    } {
        // Invalid KEY_BLOCK_SIZE
        return false;
    } else if (!flags & (FSP_FLAGS_MASK_POST_ANTELOPE | FSP_FLAGS_MASK_ATOMIC_BLOBS)) != 0 {
        // both these flags must be set for ROW_FORMAT=COMPRESSED
        return false;
    }
    // Buggy MariaDB 10.1 flags may look like a valid PAGE_SSIZE for an .ibd
    // file with the default 16k page size.
    ssize == 0 || !is_ibd || page_size != crate::univ::UNIV_PAGE_SIZE_ORIG as usize
}

/// Whether the page type is B-tree or R-tree index.
pub fn fil_page_type_is_index(page_type: u16) -> (r: bool)
    ensures
        r == (page_type == FIL_PAGE_TYPE_INSTANT || page_type == FIL_PAGE_INDEX || page_type
            == FIL_PAGE_RTREE),
{
    page_type == FIL_PAGE_TYPE_INSTANT || page_type == FIL_PAGE_INDEX || page_type
        == FIL_PAGE_RTREE
}

/// Whether the page is an index page (B-tree or R-tree).
pub fn fil_page_index_page_check(page: &[u8]) -> (r: bool)
    requires
        page@.len() >= FIL_PAGE_TYPE + 2,
    ensures
        r == (be_u16(field(page@, 24, 2)) == FIL_PAGE_TYPE_INSTANT || be_u16(field(page@, 24, 2))
            == FIL_PAGE_INDEX || be_u16(field(page@, 24, 2)) == FIL_PAGE_RTREE),
{
    fil_page_type_is_index(fil_page_get_type(page))
}

/// The file page type.
pub fn fil_page_get_type(page: &[u8]) -> (r: u16)
    requires
        page@.len() >= FIL_PAGE_TYPE + 2,
    ensures
        r == be_u16(field(page@, 24, 2)),
{
    read_u16_at(page, FIL_PAGE_TYPE as usize)
}

/// A part of the flags text followed by its separator, where `c` holds.
pub open spec fn part(c: bool, t: Seq<char>) -> Seq<char> {
    if c {
        t + "|"@
    } else {
        Seq::empty()
    }
}

/// The page size fields of the flags text.
pub open spec fn sizes_text(flags: u32) -> Seq<char> {
    let ps = (flags & FSP_FLAGS_MASK_PAGE_SSIZE) >> FSP_FLAGS_POS_PAGE_SSIZE;
    let zs = (flags & FSP_FLAGS_MASK_ZIP_SSIZE) >> FSP_FLAGS_POS_ZIP_SSIZE;
    if is_full_crc32(flags) {
        part(true, "FULL_CRC32"@) + part(true, "PAGE_SSIZE="@ + decimal((flags & 0xf) as nat))
    } else {
        part(ps != 0, "PAGE_SSIZE="@ + decimal(ps as nat)) + part(
            zs != 0,
            "ZIP_SSIZE="@ + decimal(zs as nat),
        )
    }
}

/// The compression fields of the flags text.
pub open spec fn compression_text(flags: u32) -> Seq<char> {
    let algo = (flags & 0xe0) >> 5u32;
    if (flags & 0x1_0000) >> 16u32 != 0 {
        part(true, "COMPRESSION"@) + part(algo != 0, "COMPRESSION_ALGO="@ + decimal(algo as nat))
    } else {
        Seq::empty()
    }
}

/// The remaining fields of the flags text.
pub open spec fn rest_text(flags: u32) -> Seq<char> {
    let reserved = (flags & FSP_FLAGS_MASK_RESERVED) >> FSP_FLAGS_POS_RESERVED;
    part((flags & 0x20) >> 5u32 != 0, "ATOMIC_BLOBS"@) + part(flags & 1 != 0, "POST_ANTELOPE"@)
        + part(flags & FSP_FLAGS_MASK_RESERVED != 0, "RESERVED="@ + decimal(reserved as nat))
}

/// The text that names the fields of tablespace flags, `|`-separated, ending
/// with their raw value in hexadecimal.
pub open spec fn flags_text(flags: u32) -> Seq<char> {
    sizes_text(flags) + compression_text(flags) + rest_text(flags) + "RAW=0x"@ + hex8(flags)
}

/// Appends `t` and a separator to `s`.
fn push_part(s: &mut String, t: &str)
    ensures
        final(s)@ == old(s)@ + part(true, t@),
{
    s.append(t);
    s.append("|");
    assert(s@ =~= old(s)@ + part(true, t@));
}

/// Appends `name`, the decimal text of `v` and a separator to `s`.
fn push_number_part(s: &mut String, name: &str, v: u32)
    ensures
        final(s)@ == old(s)@ + part(true, name@ + decimal(v as nat)),
{
    s.append(name);
    push_decimal(s, v as u64);
    s.append("|");
    assert(s@ =~= old(s)@ + part(true, name@ + decimal(v as nat)));
}

fn push_sizes(s: &mut String, flags: u32)
    ensures
        final(s)@ == old(s)@ + sizes_text(flags),
{
    let ghost s0 = s@;
    if full_crc32(flags) {
        push_part(s, "FULL_CRC32");
        let pssize = FSP_FLAGS_FCRC32_GET_PAGE_SSIZE(flags);
        assert((flags & 0xfu32) >> 0u32 == flags & 0xf) by (bit_vector);
        push_number_part(s, "PAGE_SSIZE=", pssize);
        assert(s@ =~= s0 + sizes_text(flags));
    } else {
        let pssize = FSP_FLAGS_GET_PAGE_SSIZE(flags);
        if pssize != 0 {
            push_number_part(s, "PAGE_SSIZE=", pssize);
        }
        let ghost s1 = s@;
        assert(s1 =~= s0 + part(pssize != 0, "PAGE_SSIZE="@ + decimal(pssize as nat)));
        let zssize = FSP_FLAGS_GET_ZIP_SSIZE(flags);
        if zssize != 0 {
            push_number_part(s, "ZIP_SSIZE=", zssize);
        }
        assert(s@ =~= s1 + part(zssize != 0, "ZIP_SSIZE="@ + decimal(zssize as nat)));
        assert(s@ =~= s0 + sizes_text(flags));
    }
}

fn push_compression(s: &mut String, flags: u32)
    ensures
        final(s)@ == old(s)@ + compression_text(flags),
{
    let ghost s0 = s@;
    if crate::fsp0types::FSP_FLAGS_HAS_PAGE_COMPRESSION(flags) != 0 {
        push_part(s, "COMPRESSION");
        let ghost s1 = s@;
        let algo = FSP_FLAGS_FCRC32_GET_COMPRESSED_ALGO(flags);
        if algo != 0 {
            push_number_part(s, "COMPRESSION_ALGO=", algo);
        }
        assert(s@ =~= s1 + part(algo != 0, "COMPRESSION_ALGO="@ + decimal(algo as nat)));
    }
    assert(s@ =~= s0 + compression_text(flags));
}

fn push_rest(s: &mut String, flags: u32)
    ensures
        final(s)@ == old(s)@ + rest_text(flags),
{
    let ghost s0 = s@;
    if crate::fsp0types::FSP_FLAGS_HAS_ATOMIC_BLOBS(flags) != 0 {
        push_part(s, "ATOMIC_BLOBS");
    }
    let ghost s1 = s@;
    assert(s1 =~= s0 + part((flags & 0x20) >> 5u32 != 0, "ATOMIC_BLOBS"@));
    assert((flags & 1u32) >> 0u32 == flags & 1) by (bit_vector);
    if crate::fsp0types::FSP_FLAGS_GET_POST_ANTELOPE(flags) != 0 {
        push_part(s, "POST_ANTELOPE");
    }
    let ghost s2 = s@;
    assert(s2 =~= s1 + part(flags & 1 != 0, "POST_ANTELOPE"@));
    if flags & FSP_FLAGS_MASK_RESERVED != 0 {
        let reserved = FSP_FLAGS_GET_RESERVED(flags);
        push_number_part(s, "RESERVED=", reserved);
    }
    let ghost reserved = (flags & FSP_FLAGS_MASK_RESERVED) >> FSP_FLAGS_POS_RESERVED;
    assert(s@ =~= s2 + part(
        flags & FSP_FLAGS_MASK_RESERVED != 0,
        "RESERVED="@ + decimal(reserved as nat),
    ));
    assert(s@ =~= s0 + rest_text(flags));
}

/// The text that names the fields of tablespace flags.
pub fn tablespace_flags_to_string(flags: u32) -> (r: String)
    ensures
        r@ == flags_text(flags),
{
    let mut s = String::new();
    push_sizes(&mut s, flags);
    push_compression(&mut s, flags);
    push_rest(&mut s, flags);
    s.append("RAW=0x");
    push_hex8(&mut s, flags);
    assert(s@ =~= flags_text(flags));
    s
}

} // verus!
