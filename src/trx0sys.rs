//! The transaction system header page.
use vstd::prelude::*;

use crate::fsp0types::{fseg_header_at, fseg_header_t};
use crate::mach::{be_u32, be_u64, field, read_u32_at, read_u64_at};
use crate::text::{lossy_string, nul_position, until_nul, utf8_lossy_of};
use crate::wsrep::XIDDATASIZE;

verus! {

/// The offset of the transaction system header on the page
pub const TRX_SYS: u32 = crate::fsp0types::FSEG_PAGE_DATA;

/// the maximum transaction id, in old formats
pub const TRX_SYS_TRX_ID_STORE: u32 = 0;

/// segment header for the tablespace segment the trx system is created into
pub const TRX_SYS_FSEG_HEADER: u32 = 8;

/// start of the array of rollback segment specification slots
pub const TRX_SYS_RSEGS: u32 = 8 + 10;

/// the tablespace ID of an undo log header; FIL_NULL if unused
pub const TRX_SYS_RSEG_SPACE: u32 = 0;

/// the page number of an undo log header, or FIL_NULL if unused
pub const TRX_SYS_RSEG_PAGE_NO: u32 = 4;

/// Size of a rollback segment specification slot
pub const TRX_SYS_RSEG_SLOT_SIZE: u32 = 8;

/// Maximum length of MySQL binlog file name, in bytes.
pub const TRX_SYS_MYSQL_LOG_NAME_LEN: usize = 512;

/// Contents of TRX_SYS_MYSQL_LOG_MAGIC_N_FLD
pub const TRX_SYS_MYSQL_LOG_MAGIC_N: u32 = 873_422_344;

/// The offset of the MySQL binlog offset info from the end of the page
pub const TRX_SYS_MYSQL_LOG_INFO_END: usize = 1000;

/// magic number field
pub const TRX_SYS_MYSQL_LOG_MAGIC_N_FLD: usize = 0;

/// 64-bit offset within that file
pub const TRX_SYS_MYSQL_LOG_OFFSET: usize = 4;

/// MySQL log file name
pub const TRX_SYS_MYSQL_LOG_NAME: usize = 12;

pub const TRX_SYS_WSREP_XID_MAGIC_N_FLD: u32 = 0;

pub const TRX_SYS_WSREP_XID_MAGIC_N: u32 = 0x7773_7265;

/// XID field: formatID, gtrid_len, bqual_len, xid_data.
pub const TRX_SYS_WSREP_XID_LEN: u32 = 4 + 4 + 4 + XIDDATASIZE;

pub const TRX_SYS_WSREP_XID_FORMAT: u32 = 4;

pub const TRX_SYS_WSREP_XID_GTRID_LEN: u32 = 8;

pub const TRX_SYS_WSREP_XID_BQUAL_LEN: u32 = 12;

pub const TRX_SYS_WSREP_XID_DATA: u32 = 16;

/// The offset of the doublewrite buffer header from the end of the page
pub const TRX_SYS_DOUBLEWRITE_END: u32 = 200;

/// The number of rollback segment slots.
pub const TRX_SYS_N_RSEGS: u32 = 127;

/// The offset of the WSREP XID info on the page.
#[allow(non_snake_case)]
pub fn TRX_SYS_WSREP_XID_INFO(page_size: usize) -> (r: u32)
    requires
        3500 <= page_size <= 0x1_0000,
    ensures
        r == if page_size - 3500 > 1596 {
            page_size - 3500
        } else {
            1596
        },
{
    let a = page_size - 3500;
    if a > 1596 {
        a as u32
    } else {
        1596
    }
}

/// Rollback segment specification slot: the header page of a rollback
/// segment; FIL_NULL space id where the slot is unused.
#[allow(non_camel_case_types)]
#[derive(Debug, Clone, Copy, PartialEq, Eq, Structural)]
pub struct trx_sys_rseg_t {
    pub space_id: u32,
    pub page_no: u32,
}

/// The slot at `off`.
pub open spec fn rseg_at(b: Seq<u8>, off: int) -> trx_sys_rseg_t {
    trx_sys_rseg_t { space_id: be_u32(field(b, off, 4)), page_no: be_u32(field(b, off + 4, 4)) }
}

impl trx_sys_rseg_t {
    pub fn from_buf(buf: &[u8]) -> (r: Self)
        requires
            buf@.len() >= TRX_SYS_RSEG_SLOT_SIZE,
        ensures
            r == rseg_at(buf@, 0),
    {
        let space_id = read_u32_at(buf, TRX_SYS_RSEG_SPACE as usize);
        let page_no = read_u32_at(buf, TRX_SYS_RSEG_PAGE_NO as usize);
        trx_sys_rseg_t { space_id, page_no }
    }
}

/// WSREP XID info structure stored in the trx_sys_t header.
#[allow(non_camel_case_types)]
#[derive(Debug, Clone, PartialEq, Eq)]
pub struct trx_sys_wsrep_xid_t {
    pub magic: u32,
    pub format: u32,
    pub gtrid_len: u32,
    pub bqual_len: u32,
    /// `XIDDATASIZE` bytes
    pub xid_data: Vec<u8>,
}

/// Whether `x` is the WSREP XID info at the start of `b`.
pub open spec fn wsrep_xid_is(x: trx_sys_wsrep_xid_t, b: Seq<u8>) -> bool {
    &&& x.magic == be_u32(field(b, 0, 4))
    &&& x.format == be_u32(field(b, 4, 4))
    &&& x.gtrid_len == be_u32(field(b, 8, 4))
    &&& x.bqual_len == be_u32(field(b, 12, 4))
    &&& x.xid_data@ == field(b, 16, 128)
}

/// Copies `buf[start..start + n]`.
pub(crate) fn copy_bytes(buf: &[u8], start: usize, n: usize) -> (r: Vec<u8>)
    requires
        start + n <= buf@.len(),
    ensures
        r@ == field(buf@, start as int, n as int),
{
    let mut v: Vec<u8> = Vec::new();
    let len = buf.len();
    let mut i: usize = 0;
    while i < n
        invariant
            start + n <= buf@.len(),
            len == buf@.len(),
            0 <= i <= n,
            v@ == field(buf@, start as int, i as int),
        decreases n - i,
    {
        v.push(buf[start + i]);
        assert(v@ =~= field(buf@, start as int, i + 1));
        i = i + 1;
    }
    v
}

impl trx_sys_wsrep_xid_t {
    pub fn from_buf(buf: &[u8]) -> (r: Self)
        requires
            buf@.len() >= 4 + TRX_SYS_WSREP_XID_LEN,
        ensures
            wsrep_xid_is(r, buf@),
    {
        let magic = read_u32_at(buf, TRX_SYS_WSREP_XID_MAGIC_N_FLD as usize);
        let format = read_u32_at(buf, TRX_SYS_WSREP_XID_FORMAT as usize);
        let gtrid_len = read_u32_at(buf, TRX_SYS_WSREP_XID_GTRID_LEN as usize);
        let bqual_len = read_u32_at(buf, TRX_SYS_WSREP_XID_BQUAL_LEN as usize);
        let xid_data = copy_bytes(buf, TRX_SYS_WSREP_XID_DATA as usize, XIDDATASIZE as usize);
        trx_sys_wsrep_xid_t { magic, format, gtrid_len, bqual_len, xid_data }
    }
}

/// MariaDB binlog info structure stored in the trx_sys_t header.
#[allow(non_camel_case_types)]
#[derive(Debug, Clone, PartialEq, Eq)]
pub struct trx_sys_mysql_log_t {
    pub magic: u32,
    pub log_offset: u64,
    pub name: String,
}

/// Whether `x` is the binlog info at the start of `b`.
pub open spec fn mysql_log_is(x: trx_sys_mysql_log_t, b: Seq<u8>) -> bool {
    &&& x.magic == be_u32(field(b, 0, 4))
    &&& x.log_offset == be_u64(field(b, 4, 8))
    &&& x.name@ == utf8_lossy_of(until_nul(field(b, 12, 512)))
}

impl trx_sys_mysql_log_t {
    pub fn from_buf(buf: &[u8]) -> (r: Self)
        requires
            buf@.len() >= TRX_SYS_MYSQL_LOG_NAME + TRX_SYS_MYSQL_LOG_NAME_LEN,
        ensures
            mysql_log_is(r, buf@),
    {
        let magic = read_u32_at(buf, TRX_SYS_MYSQL_LOG_MAGIC_N_FLD);
        let log_offset = read_u64_at(buf, TRX_SYS_MYSQL_LOG_OFFSET);
        let end = TRX_SYS_MYSQL_LOG_NAME + TRX_SYS_MYSQL_LOG_NAME_LEN;
        let n = nul_position(buf, TRX_SYS_MYSQL_LOG_NAME, end);
        let name = lossy_string(&buf[TRX_SYS_MYSQL_LOG_NAME..n]);
        trx_sys_mysql_log_t { magic, log_offset, name }
    }
}

/// Doublewrite buffer info structure stored in the trx_sys_t header.
#[allow(non_camel_case_types)]
#[derive(Debug, Clone, Copy, PartialEq, Eq, Structural)]
pub struct trx_sys_doublewrite_t {
    pub fseg: fseg_header_t,
    pub magic: u32,
    pub block1: u32,
    pub block2: u32,
    pub magic_repeat: u32,
    pub block1_repeat: u32,
    pub block2_repeat: u32,
}

/// The doublewrite buffer info at the start of `b`.
pub open spec fn doublewrite_at(b: Seq<u8>) -> trx_sys_doublewrite_t {
    trx_sys_doublewrite_t {
        fseg: fseg_header_at(b, 0),
        magic: be_u32(field(b, 10, 4)),
        block1: be_u32(field(b, 14, 4)),
        block2: be_u32(field(b, 18, 4)),
        magic_repeat: be_u32(field(b, 22, 4)),
        block1_repeat: be_u32(field(b, 26, 4)),
        block2_repeat: be_u32(field(b, 30, 4)),
    }
}

impl trx_sys_doublewrite_t {
    pub fn from_buf(buf: &[u8]) -> (r: Self)
        requires
            buf@.len() >= 34,
        ensures
            r == doublewrite_at(buf@),
    {
        let fseg = fseg_header_t::from_buf(buf);
        let magic = read_u32_at(buf, 10);
        let block1 = read_u32_at(buf, 14);
        let block2 = read_u32_at(buf, 18);
        let magic_repeat = read_u32_at(buf, 22);
        let block1_repeat = read_u32_at(buf, 26);
        let block2_repeat = read_u32_at(buf, 30);
        trx_sys_doublewrite_t {
            fseg,
            magic,
            block1,
            block2,
            magic_repeat,
            block1_repeat,
            block2_repeat,
        }
    }
}

/// Transaction system header structure, stored in the page
/// FSP_TRX_SYS_PAGE_NO of the system tablespace and in the undo tablespaces.
#[allow(non_camel_case_types)]
#[derive(Debug, Clone, PartialEq, Eq)]
pub struct trx_sys_t {
    pub id_store: u64,
    pub fseg_header: fseg_header_t,
    pub rsegs: Vec<trx_sys_rseg_t>,
    pub wsrep_xid: trx_sys_wsrep_xid_t,
    pub mysql_log: trx_sys_mysql_log_t,
    pub doublewrite: trx_sys_doublewrite_t,
}

/// Whether `t` is the transaction system header of a page of `page_size`
/// bytes whose bytes from `TRX_SYS` on are `b`.
pub open spec fn trx_sys_is(t: trx_sys_t, b: Seq<u8>, page_size: int) -> bool {
    let xid = (if page_size - 3500 > 1596 {
        page_size - 3500
    } else {
        1596
    }) - TRX_SYS;
    &&& t.id_store == be_u64(field(b, 0, 8))
    &&& t.fseg_header == fseg_header_at(b, 8)
    &&& t.rsegs@ == Seq::new(127, |i: int| rseg_at(b, 18 + 8 * i))
    &&& wsrep_xid_is(t.wsrep_xid, b.subrange(xid, b.len() as int))
    &&& mysql_log_is(
        t.mysql_log,
        b.subrange(page_size - TRX_SYS_MYSQL_LOG_INFO_END - TRX_SYS, b.len() as int),
    )
    &&& t.doublewrite == doublewrite_at(
        b.subrange(page_size - TRX_SYS_DOUBLEWRITE_END - TRX_SYS, b.len() as int),
    )
}

impl trx_sys_t {
    pub fn from_page(page: &[u8]) -> (r: Self)
        requires
            4096 <= page@.len() <= 0x1_0000,
        ensures
            trx_sys_is(r, page@.subrange(TRX_SYS as int, page@.len() as int), page@.len() as int),
    {
        Self::from_buf(&page[TRX_SYS as usize..page.len()], page.len())
    }

    /// Reads the header from the bytes of a page of `page_size` bytes from
    /// `TRX_SYS` on.
    pub fn from_buf(buf: &[u8], page_size: usize) -> (r: Self)
        requires
            4096 <= page_size <= 0x1_0000,
            buf@.len() == page_size - TRX_SYS,
        ensures
            trx_sys_is(r, buf@, page_size as int),
    {
        let id_store = read_u64_at(buf, TRX_SYS_TRX_ID_STORE as usize);
        let fseg_header = fseg_header_t::from_buf(&buf[8..18]);
        assert(fseg_header_at(buf@.subrange(8, 18), 0) == fseg_header_at(buf@, 8)) by {
            assert(field(buf@.subrange(8, 18), 0, 4) =~= field(buf@, 8, 4));
            assert(field(buf@.subrange(8, 18), 4, 4) =~= field(buf@, 12, 4));
            assert(field(buf@.subrange(8, 18), 8, 2) =~= field(buf@, 16, 2));
        }
        let mut rsegs: Vec<trx_sys_rseg_t> = Vec::with_capacity(TRX_SYS_N_RSEGS as usize);
        let mut i: u32 = 0;
        while i < TRX_SYS_N_RSEGS
            invariant
                buf@.len() == page_size - TRX_SYS,
                4096 <= page_size,
                0 <= i <= 127,
                rsegs@ == Seq::new(i as nat, |k: int| rseg_at(buf@, 18 + 8 * k)),
            decreases 127 - i,
        {
            let slot_offset = (TRX_SYS_RSEGS + i * TRX_SYS_RSEG_SLOT_SIZE) as usize;
            let slot = trx_sys_rseg_t::from_buf(&buf[slot_offset..slot_offset + 8]);
            assert(rseg_at(buf@.subrange(slot_offset as int, slot_offset + 8), 0) == rseg_at(
                buf@,
                slot_offset as int,
            )) by {
                assert(field(buf@.subrange(slot_offset as int, slot_offset + 8), 0, 4) =~= field(
                    buf@,
                    slot_offset as int,
                    4,
                ));
                assert(field(buf@.subrange(slot_offset as int, slot_offset + 8), 4, 4) =~= field(
                    buf@,
                    slot_offset + 4,
                    4,
                ));
            }
            rsegs.push(slot);
            assert(rsegs@ =~= Seq::new((i + 1) as nat, |k: int| rseg_at(buf@, 18 + 8 * k)));
            i = i + 1;
        }
        let xid = TRX_SYS_WSREP_XID_INFO(page_size) as usize - TRX_SYS as usize;
        let n = buf.len();
        let wsrep_xid = trx_sys_wsrep_xid_t::from_buf(&buf[xid..n]);
        let log_off = page_size - TRX_SYS_MYSQL_LOG_INFO_END - TRX_SYS as usize;
        let mysql_log = trx_sys_mysql_log_t::from_buf(&buf[log_off..n]);
        let dw_off = page_size - (TRX_SYS_DOUBLEWRITE_END + TRX_SYS) as usize;
        let doublewrite = trx_sys_doublewrite_t::from_buf(&buf[dw_off..n]);
        trx_sys_t { id_store, fseg_header, rsegs, wsrep_xid, mysql_log, doublewrite }
    }
}

/// The binlog position recorded in a rollback segment header.
#[allow(non_camel_case_types)]
#[derive(Debug, Clone, PartialEq, Eq)]
pub struct mysql_log_t {
    pub log_name: String,
    pub log_offset: u64,
}

} // verus!
