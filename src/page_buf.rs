//! A tablespace page: its header and trailer fields over its bytes, and the
//! builders of fresh pages.
use vstd::prelude::*;

use crate::crc::{crc32c, crc32c_of};
use crate::error::Error;
use crate::fil0fil::FIL_PAGE_UNDO_LOG;
use crate::mach::{
    be_u16, be_u32, be_u64, field, overwrite, read_u16_at, read_u32_at, read_u64_at, u16_be,
    u32_be, u64_be, write_u16_at, write_u32_at, write_u64_at,
};
use crate::Lsn;

verus! {

/// A page with the fields of its header and trailer.
#[derive(Debug, Clone, Copy)]
pub struct PageBuf<'a> {
    pub space_id: u32,
    pub page_no: u32,
    pub prev_page: u32,
    pub next_page: u32,
    pub page_lsn: Lsn,
    /// The page type; trustworthy for uncompressed B-tree pages and for all
    /// pages of tablespaces created by 5.1.7 or later.
    pub page_type: u16,
    /// A checksum only where the flags are not full_crc32.
    pub head_checksum: u32,
    pub foot_checksum: u32,
    pub foot_lsn: u32,
    /// tablespace flags
    pub flags: u32,
    pub buf: &'a [u8],
}

impl<'a> View for PageBuf<'a> {
    type V = Seq<u8>;

    open spec fn view(&self) -> Seq<u8> {
        self.buf@
    }
}

/// 'null' (undefined) page offset in the context of file spaces.
pub const FIL_NULL: u32 = crate::fil0fil::FIL_NULL;

impl<'a> PageBuf<'a> {
    pub open spec fn flags_spec(&self) -> u32 {
        self.flags
    }

    /// Reads the header and trailer fields of a full page; `flags` are the
    /// tablespace flags.
    pub fn new(flags: u32, buf: &'a [u8]) -> (r: Self)
        requires
            buf@.len() >= 38,
        ensures
            r@ == buf@,
            r.flags_spec() == flags,
            r.head_checksum == be_u32(field(buf@, 0, 4)),
            r.page_no == be_u32(field(buf@, 4, 4)),
            r.prev_page == be_u32(field(buf@, 8, 4)),
            r.next_page == be_u32(field(buf@, 12, 4)),
            r.page_lsn == be_u64(field(buf@, 16, 8)),
            r.page_type == be_u16(field(buf@, 24, 2)),
            r.space_id == be_u32(field(buf@, 34, 4)),
            r.foot_lsn == be_u32(field(buf@, buf@.len() - 8, 4)),
            r.foot_checksum == be_u32(field(buf@, buf@.len() - 4, 4)),
    {
        let n = buf.len();
        let head_checksum = read_u32_at(buf, 0);
        let page_no = read_u32_at(buf, 4);
        let prev_page = read_u32_at(buf, 8);
        let next_page = read_u32_at(buf, 12);
        let page_lsn = read_u64_at(buf, 16);
        let page_type = read_u16_at(buf, 24);
        let space_id = read_u32_at(buf, 34);
        let foot_lsn = read_u32_at(buf, n - 8);
        let foot_checksum = read_u32_at(buf, n - 4);
        PageBuf {
            space_id,
            page_no,
            prev_page,
            next_page,
            page_lsn,
            page_type,
            head_checksum,
            foot_checksum,
            foot_lsn,
            flags,
            buf,
        }
    }

    pub fn space_id(&self) -> (r: u32)
        ensures
            r == self.space_id,
    {
        self.space_id
    }

    pub fn page_no(&self) -> (r: u32)
        ensures
            r == self.page_no,
    {
        self.page_no
    }

    pub fn flags(&self) -> (r: u32)
        ensures
            r == self.flags_spec(),
    {
        self.flags
    }

    pub fn buf(&self) -> (r: &'a [u8])
        ensures
            r@ == self@,
    {
        self.buf
    }

    /// The offset of the page in its tablespace.
    pub fn page_ptr(&self) -> (r: usize)
        requires
            self.page_no * self@.len() <= usize::MAX,
        ensures
            r == self.page_no * self@.len(),
    {
        self.page_no as usize * self.buf.len()
    }

    pub fn page_size(&self) -> (r: usize)
        ensures
            r == self@.len(),
    {
        self.buf.len()
    }

    /// Checks the page's integrity.
    pub fn corrupted(&self, check_lsn: Option<Lsn>) -> (r: Result<(), Error>)
        requires
            self@.len() >= 38,
        ensures
            r == crate::buf0buf::page_check(self.flags_spec(), self@),
    {
        crate::buf0buf::buf_page_is_corrupted(self, check_lsn)
    }

    pub fn read_4(&self, offset: usize) -> (r: u32)
        requires
            offset + 4 <= self@.len(),
        ensures
            r == be_u32(field(self@, offset as int, 4)),
    {
        read_u32_at(self.buf, offset)
    }

    pub fn read_8(&self, offset: usize) -> (r: u64)
        requires
            offset + 8 <= self@.len(),
        ensures
            r == be_u64(field(self@, offset as int, 8)),
    {
        read_u64_at(self.buf, offset)
    }
}

/// The page header fields written by `make_page_header` before the space id:
/// checksum 0, page number, no neighbours, LSN, page type.
pub open spec fn page_header_fields(page_no: u32, page_type: u16, page_lsn: u64) -> Seq<u8> {
    u32_be(0) + u32_be(page_no) + u32_be(FIL_NULL) + u32_be(FIL_NULL) + u64_be(page_lsn) + u16_be(
        page_type,
    )
}

/// The empty undo log page header: type 0, start and free after the header,
/// and a list node without neighbours.
pub open spec fn undo_page_header_bytes() -> Seq<u8> {
    u16_be(0) + u16_be(18) + u16_be(18) + u32_be(FIL_NULL) + u16_be(0) + u32_be(FIL_NULL) + u16_be(
        0,
    )
}

/// `b` with its trailer written: the low 32 bits of the page LSN, then the
/// CRC-32C of everything before the last 4 bytes.
pub open spec fn with_footer(b: Seq<u8>) -> Seq<u8> {
    let n = b.len() as int;
    let b1 = overwrite(b, n - 8, u32_be(be_u32(field(b, 20, 4))));
    overwrite(b1, n - 4, u32_be(crc32c_of(b1.subrange(0, n - 4))))
}

/// The fresh undo log page of a 16 KiB full_crc32 tablespace.
pub open spec fn undo_log_page(space_id: u32, page_no: u32, page_lsn: u64) -> Seq<u8> {
    let zeros = Seq::new(16384, |i: int| 0u8);
    let h = overwrite(
        overwrite(zeros, 0, page_header_fields(page_no, FIL_PAGE_UNDO_LOG, page_lsn)),
        34,
        u32_be(space_id),
    );
    with_footer(overwrite(h, 38, undo_page_header_bytes()))
}

/// Writes `src` into `dst` from `off` on.
fn copy_into(dst: &mut [u8], off: usize, src: &[u8])
    requires
        off + src@.len() <= old(dst)@.len(),
    ensures
        final(dst)@ == overwrite(old(dst)@, off as int, src@),
{
    let ghost d0 = dst@;
    let dn = dst.len();
    let n = src.len();
    let mut i: usize = 0;
    while i < n
        invariant
            off + n <= dst@.len(),
            dn == d0.len(),
            n == src@.len(),
            dst@.len() == d0.len(),
            0 <= i <= n,
            forall|j: int| 0 <= j < dst@.len() && !(off <= j < off + i) ==> #[trigger] dst@[j]
                == d0[j],
            forall|j: int| 0 <= j < i ==> #[trigger] dst@[off + j] == src@[j],
        decreases n - i,
    {
        dst[off + i] = src[i];
        i = i + 1;
    }
    assert forall|j: int| 0 <= j < dst@.len() implies dst@[j] == overwrite(
        d0,
        off as int,
        src@,
    )[j] by {
        if off <= j < off + n {
            assert(dst@[off + (j - off)] == src@[j - off]);
        }
    }
    assert(dst@ =~= overwrite(d0, off as int, src@));
}

/// Writes a fresh undo log page into `page`: only general tablespaces with
/// flags 0x15 (full_crc32, 16 KiB, no compression or encryption) are
/// supported.
pub fn make_undo_log_page(page: &mut [u8], space_id: u32, page_no: u32, page_lsn: Lsn, flags: u32) -> (r:
    Result<(), Error>)
    ensures
        flags != 0x15 || old(page)@.len() != 16384 ==> r == Err::<(), Error>(Error::InvalidInput)
            && final(page)@ == old(page)@,
        flags == 0x15 && old(page)@.len() == 16384 ==> r == Ok::<(), Error>(()) && final(page)@
            == undo_log_page(space_id, page_no, page_lsn),
{
    if flags != 0x15 {
        return Err(Error::InvalidInput);
    }
    let page_size = crate::fil0fil::logical_size(flags);
    assert((0x15u32 & 0xfu32) == 5u32 && (0x15u32 & 0x10u32) != 0u32) by (bit_vector);
    assert((512u32 << 5u32) == 16384u32) by (bit_vector);
    if page.len() != page_size {
        return Err(Error::InvalidInput);
    }
    let n = page.len();
    let mut i: usize = 0;
    while i < n
        invariant
            n == page@.len(),
            0 <= i <= n,
            forall|j: int| 0 <= j < i ==> #[trigger] page@[j] == 0,
        decreases n - i,
    {
        page[i] = 0;
        i = i + 1;
    }
    assert(page@ =~= Seq::new(16384, |i: int| 0u8));
    make_page_header(page, space_id, page_no, FIL_PAGE_UNDO_LOG, page_lsn, flags)?;
    let mut hdr = vec![0u8; 18];
    make_undo_log_page_header(hdr.as_mut_slice())?;
    assert(hdr@ =~= undo_page_header_bytes());
    copy_into(page, crate::trx0undo::TRX_UNDO_PAGE_HDR as usize, hdr.as_slice());
    make_page_footer(page)?;
    Ok(())
}

/// Writes the page header fields into the first 38 bytes of `buf`.
pub fn make_page_header(
    buf: &mut [u8],
    space_id: u32,
    page_no: u32,
    page_type: u16,
    page_lsn: Lsn,
    flags: u32,
) -> (r: Result<(), Error>)
    ensures
        flags != 0x15 || old(buf)@.len() < 38 ==> r == Err::<(), Error>(Error::InvalidInput)
            && final(buf)@ == old(buf)@,
        flags == 0x15 && old(buf)@.len() >= 38 ==> r == Ok::<(), Error>(()) && final(buf)@
            == overwrite(
            overwrite(old(buf)@, 0, page_header_fields(page_no, page_type, page_lsn)),
            34,
            u32_be(space_id),
        ),
{
    if flags != 0x15 || buf.len() < 38 {
        return Err(Error::InvalidInput);
    }
    let ghost b0 = buf@;
    write_u32_at(buf, 0, 0);
    write_u32_at(buf, 4, page_no);
    write_u32_at(buf, 8, FIL_NULL);
    write_u32_at(buf, 12, FIL_NULL);
    write_u64_at(buf, 16, page_lsn);
    write_u16_at(buf, 24, page_type);
    write_u32_at(buf, 34, space_id);
    assert(buf@ =~= overwrite(
        overwrite(b0, 0, page_header_fields(page_no, page_type, page_lsn)),
        34,
        u32_be(space_id),
    ));
    Ok(())
}

/// Writes the empty undo log page header into the first 18 bytes of `buf`.
pub fn make_undo_log_page_header(buf: &mut [u8]) -> (r: Result<(), Error>)
    ensures
        old(buf)@.len() < 18 ==> r == Err::<(), Error>(Error::InvalidInput)
            && final(buf)@ == old(buf)@,
        old(buf)@.len() >= 18 ==> r == Ok::<(), Error>(()) && final(buf)@ == overwrite(
            old(buf)@,
            0,
            undo_page_header_bytes(),
        ),
{
    if buf.len() < 18 {
        return Err(Error::InvalidInput);
    }
    let ghost b0 = buf@;
    write_u16_at(buf, crate::trx0undo::TRX_UNDO_PAGE_TYPE as usize, 0);
    write_u16_at(
        buf,
        crate::trx0undo::TRX_UNDO_PAGE_START as usize,
        crate::trx0undo::TRX_UNDO_PAGE_HDR_SIZE as u16,
    );
    write_u16_at(
        buf,
        crate::trx0undo::TRX_UNDO_PAGE_FREE as usize,
        crate::trx0undo::TRX_UNDO_PAGE_HDR_SIZE as u16,
    );
    write_u32_at(buf, 6, FIL_NULL);
    write_u16_at(buf, 10, 0);
    write_u32_at(buf, 12, FIL_NULL);
    write_u16_at(buf, 16, 0);
    assert(buf@ =~= overwrite(b0, 0, undo_page_header_bytes()));
    Ok(())
}

/// Writes the full_crc32 page trailer.
pub fn make_page_footer(page_buf: &mut [u8]) -> (r: Result<(), Error>)
    ensures
        old(page_buf)@.len() < 38 ==> r == Err::<(), Error>(Error::InvalidInput)
            && final(page_buf)@ == old(page_buf)@,
        old(page_buf)@.len() >= 38 ==> r == Ok::<(), Error>(()) && final(page_buf)@ == with_footer(
            old(page_buf)@,
        ),
{
    let page_size = page_buf.len();
    if page_size < 38 {
        return Err(Error::InvalidInput);
    }
    let end_lsn_offset = page_size - 8;
    let checksum_offset = page_size - 4;
    let page_lsn = read_u32_at(page_buf, 20);
    write_u32_at(page_buf, end_lsn_offset, page_lsn);
    let crc32 = crc32c(&page_buf[0..checksum_offset]);
    write_u32_at(page_buf, checksum_offset, crc32);
    Ok(())
}

} // verus!
