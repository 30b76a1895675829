//! Page size constants and conversions.
use vstd::prelude::*;

verus! {

pub const HOSTNAME_LENGTH: u32 = 255;

pub const SYSTEM_CHARSET_MBMAXLEN: u32 = 3;

/// Field/table name length
pub const NAME_CHAR_LEN: u32 = 64;

pub const USERNAME_CHAR_LENGTH: u32 = 128;

pub const NAME_LEN: u32 = NAME_CHAR_LEN * SYSTEM_CHARSET_MBMAXLEN;

/// log2 of smallest compressed page size (1<<10 == 1024 bytes)
pub const UNIV_ZIP_SIZE_SHIFT_MIN: u32 = 10;

/// log2 of largest compressed page size (1<<14 == 16384 bytes).
pub const UNIV_ZIP_SIZE_SHIFT_MAX: u32 = 14;

/// Minimum Page Size Shift (power of 2)
pub const UNIV_PAGE_SIZE_SHIFT_MIN: u32 = 12;

/// Maximum Page Size Shift (power of 2)
pub const UNIV_PAGE_SIZE_SHIFT_MAX: u32 = 16;

/// Default Page Size Shift (power of 2)
pub const UNIV_PAGE_SIZE_SHIFT_DEF: u32 = 14;

/// The classic 16k InnoDB page size shift, in case the default changes
pub const UNIV_PAGE_SIZE_SHIFT_ORIG: u32 = 14;

/// The classic 16k InnoDB page size as an ssize (log2 - 9)
pub const UNIV_PAGE_SSIZE_ORIG: u32 = UNIV_PAGE_SIZE_SHIFT_ORIG - 9;

/// Minimum page size InnoDB currently supports.
pub const UNIV_PAGE_SIZE_MIN: u32 = 4096;

/// Maximum page size InnoDB currently supports.
pub const UNIV_PAGE_SIZE_MAX: u32 = 65536;

/// Default page size for InnoDB tablespaces.
pub const UNIV_PAGE_SIZE_DEF: u32 = 16384;

/// The classic 16k page size for InnoDB tablespaces.
pub const UNIV_PAGE_SIZE_ORIG: u32 = 16384;

/// Smallest compressed page size
pub const UNIV_ZIP_SIZE_MIN: u32 = 1024;

/// Largest compressed page size
pub const UNIV_ZIP_SIZE_MAX: u32 = 16384;

/// Smallest possible ssize for an uncompressed page.
pub const UNIV_PAGE_SSIZE_MIN: u32 = UNIV_PAGE_SIZE_SHIFT_MIN - UNIV_ZIP_SIZE_SHIFT_MIN + 1;

/// Maximum number of parallel threads in a parallelized operation
pub const UNIV_MAX_PARALLELISM: u32 = 32;

/// The "mbmaxlen" for my_charset_filename.
pub const FILENAME_CHARSET_MAXNAMLEN: u32 = 5;

/// The maximum length of an encoded table name in bytes.
pub const MAX_TABLE_NAME_LEN: u32 = 320;

/// The maximum length of a database name.
pub const MAX_DATABASE_NAME_LEN: u32 = MAX_TABLE_NAME_LEN;

/// The full name path including the database name and table name.
pub const MAX_FULL_NAME_LEN: u32 = MAX_TABLE_NAME_LEN + MAX_DATABASE_NAME_LEN + 14;

/// Maximum length of the compression algorithm string.
pub const MAX_COMPRESSION_LEN: u32 = 4;

/// The maximum length in bytes of a database name stored in UTF8.
pub const MAX_DB_UTF8_LEN: u32 = NAME_LEN + 1;

/// The bitmask of 32-bit unsigned integer
pub const ULINT32_MASK: u32 = 0xFFFF_FFFF;

/// The undefined 32-bit unsigned integer
pub const ULINT32_UNDEFINED: u32 = ULINT32_MASK;

/// Largest possible ssize (log2 minus 9) for an uncompressed page of the
/// given size shift.
pub fn univ_page_ssize_max(page_size_shift: u32) -> (r: u32)
    requires
        page_size_shift >= UNIV_ZIP_SIZE_SHIFT_MIN,
    ensures
        r == page_size_shift - 9,
{
    page_size_shift - UNIV_ZIP_SIZE_SHIFT_MIN + 1
}

/// Whether `page_size` is one of the supported page sizes.
pub open spec fn is_page_size(page_size: int) -> bool {
    page_size == 4096 || page_size == 8192 || page_size == 16384 || page_size == 32768
        || page_size == 65536
}

/// log2 of the page size (14 for 1<<14 == 16384 bytes).
pub fn page_size_shift(page_size: u32) -> (r: u32)
    requires
        is_page_size(page_size as int),
    ensures
        12 <= r <= 16,
        page_size == vstd::arithmetic::power2::pow2(r as nat),
{
    proof {
        vstd::arithmetic::power2::lemma2_to64();
    }
    if page_size == 65536 {
        16
    } else if page_size == 32768 {
        15
    } else if page_size == 16384 {
        14
    } else if page_size == 8192 {
        13
    } else {
        12
    }
}

} // verus!
