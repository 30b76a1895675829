//! Page integrity checks.
use vstd::prelude::*;

use crate::crc::{crc32c, crc32c_of};
use crate::error::Error;
use crate::fil0fil::{full_crc32, is_full_crc32, FIL_PAGE_FCRC32_CHECKSUM};
use crate::mach::{be_u16, be_u32, field};
use crate::page_buf::PageBuf;
use crate::Lsn;

verus! {

/// The payload size of a full_crc32 page, whether it is compressed, and
/// whether its compressed size is impossible.
pub open spec fn full_crc32_size_of(b: Seq<u8>) -> (int, bool, bool) {
    let page_type = be_u16(field(b, 24, 2));
    let compressed_size = ((page_type & 0xff) as int) * 256;
    if page_type & 0x8000 == 0 {
        (b.len() as int, false, false)
    } else if compressed_size <= b.len() {
        (compressed_size, true, false)
    } else {
        (b.len() as int, false, true)
    }
}

/// The integrity verdict on a page with tablespace flags `flags`.
pub open spec fn page_check(flags: u32, b: Seq<u8>) -> Result<(), Error> {
    let (size, _c, corrupted) = full_crc32_size_of(b);
    if !is_full_crc32(flags) {
        Err(Error::UnsupportedLegacyChecksum)
    } else if corrupted || size < 4 {
        Err(Error::PageChecksum)
    } else {
        let stored = be_u32(field(b, size - 4, 4));
        if stored == 0 && size == b.len() && (forall|i: int| 0 <= i < size ==> b[i] == 0) {
            Ok(())
        } else if crc32c_of(b.subrange(0, size - 4)) != stored {
            Err(Error::PageChecksum)
        } else {
            Ok(())
        }
    }
}

/// Check whether a page is corrupted.
pub fn buf_page_is_corrupted(page: &PageBuf, _check_lsn: Option<Lsn>) -> (r: Result<(), Error>)
    requires
        page@.len() >= 38,
    ensures
        r == page_check(page.flags_spec(), page@),
{
    let buf = page.buf();
    if !full_crc32(page.flags()) {
        return Err(Error::UnsupportedLegacyChecksum);
    }
    let (page_size, _compressed, corrupted) = buf_page_full_crc32_size(page);
    if corrupted || page_size < FIL_PAGE_FCRC32_CHECKSUM as usize {
        return Err(Error::PageChecksum);
    }
    let end = page_size - FIL_PAGE_FCRC32_CHECKSUM as usize;
    let crc = crate::mach::read_u32_at(buf, end);
    // A full size page filled with NUL bytes is not corrupted and has no
    // checksum.
    if crc == 0 && page_size == page.page_size() {
        let mut i: usize = 0;
        let mut zero = true;
        while i < page_size
            invariant
                page_size == buf@.len(),
                0 <= i <= page_size,
                zero == (forall|j: int| 0 <= j < i ==> buf@[j] == 0),
            decreases page_size - i,
        {
            if buf[i] != 0 {
                zero = false;
            }
            i = i + 1;
        }
        if zero {
            return Ok(());
        }
    }
    if crc32c(&buf[0..end]) != crc {
        return Err(Error::PageChecksum);
    }
    Ok(())
}

/// The compressed or uncompressed size of a full_crc32 page, whether the page
/// could be compressed, and whether it could be corrupted.
fn buf_page_full_crc32_size(page: &PageBuf) -> (r: (usize, bool, bool))
    requires
        page@.len() >= 38,
    ensures
        r.0 == full_crc32_size_of(page@).0,
        r.1 == full_crc32_size_of(page@).1,
        r.2 == full_crc32_size_of(page@).2,
{
    let page_type = crate::fil0fil::fil_page_get_type(page.buf());
    let page_size = page.page_size();
    if page_type & 0x8000 == 0 {
        return (page_size, false, false);
    }
    let compressed_size = ((page_type & 0xff) as usize) * 256;
    if compressed_size <= page_size {
        (compressed_size, true, false)
    } else {
        (page_size, false, true)
    }
}

/// A page-sized buffer of zeros passes the full_crc32 check.
pub proof fn lemma_zero_page_not_corrupted(flags: u32, b: Seq<u8>)
    requires
        is_full_crc32(flags),
        b.len() >= 38,
        forall|i: int| 0 <= i < b.len() ==> b[i] == 0,
    ensures
        page_check(flags, b) == Ok::<(), Error>(()),
{
    let t = field(b, 24, 2);
    assert(t[0] == 0 && t[1] == 0);
    assert(((0u8 as u16) << 8u16) | (0u8 as u16) == 0) by (bit_vector);
    assert(be_u16(t) == 0);
    assert((0u16 & 0x8000u16) == 0) by (bit_vector);
    let s = field(b, b.len() - 4, 4);
    assert(s[0] == 0 && s[1] == 0 && s[2] == 0 && s[3] == 0);
    assert(((0u8 as u32) << 24u32) | ((0u8 as u32) << 16u32) | ((0u8 as u32) << 8u32) | (0u8 as u32)
        == 0) by (bit_vector);
}

} // verus!
