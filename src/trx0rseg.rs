//! Rollback segment header pages.
use std::collections::HashMap;

use vstd::prelude::*;

use crate::fsp0types::{fseg_header_at, fseg_header_t};
use crate::fut0lst::{addr_at, flst_base_node_t};
use crate::mach::{be_u32, be_u64, field, read_u32_at, read_u64_at};
use crate::text::{lossy_string, nul_position, until_nul, utf8_lossy_of};
use crate::trx0sys::{copy_bytes, mysql_log_t};
use crate::wsrep::{wsrep_xid_t, XIDDATASIZE};

verus! {

/// Page number of the header page of an undo log segment
pub const TRX_RSEG_SLOT_PAGE_NO: u32 = 0;

/// Slot size
pub const TRX_RSEG_SLOT_SIZE: u32 = 4;

/// The offset of the rollback segment header on its page
pub const TRX_RSEG: u32 = crate::fsp0types::FSEG_PAGE_DATA;

/// 0xfffffffe = pre-MariaDB 10.3.5 format; 0=MariaDB 10.3.5 or later
pub const TRX_RSEG_FORMAT: u32 = 0;

/// Number of pages in the TRX_RSEG_HISTORY list
pub const TRX_RSEG_HISTORY_SIZE: u32 = 4;

/// Committed transaction logs that have not been purged yet
pub const TRX_RSEG_HISTORY: u32 = 8;

/// Header for the file segment where this page is placed
pub const TRX_RSEG_FSEG_HEADER: u32 = 8 + crate::fut0lst::FLST_BASE_NODE_SIZE;

/// Undo log segment slots
pub const TRX_RSEG_UNDO_SLOTS: u32 = 8 + crate::fut0lst::FLST_BASE_NODE_SIZE + 10;

/// 8 bytes offset within the binlog file, after TRX_RSEG_MAX_TRX_ID.
pub const TRX_RSEG_BINLOG_OFFSET: u32 = 8;

/// MySQL log file name, 512 bytes, including terminating NUL, after
/// TRX_RSEG_MAX_TRX_ID; its first byte is NUL where there is none.
pub const TRX_RSEG_BINLOG_NAME_OFFSET: u32 = 16;

/// Maximum length of binlog file name, including terminating NUL, in bytes
pub const TRX_RSEG_BINLOG_NAME_LEN: u32 = 512;

/// The offset to WSREP XID headers, after TRX_RSEG_MAX_TRX_ID.
pub const TRX_RSEG_WSREP_XID_INFO: u32 = 16 + 512;

/// WSREP XID format (1 if present and valid, 0 if not present)
pub const TRX_RSEG_WSREP_XID_FORMAT: u32 = TRX_RSEG_WSREP_XID_INFO;

/// WSREP XID GTRID length
pub const TRX_RSEG_WSREP_XID_GTRID_LEN: u32 = TRX_RSEG_WSREP_XID_INFO + 4;

/// WSREP XID bqual length
pub const TRX_RSEG_WSREP_XID_BQUAL_LEN: u32 = TRX_RSEG_WSREP_XID_INFO + 8;

/// WSREP XID data (XIDDATASIZE bytes)
pub const TRX_RSEG_WSREP_XID_DATA: u32 = TRX_RSEG_WSREP_XID_INFO + 12;

pub const TRX_RSEG_WSREP_XID_LEN: u32 = TRX_RSEG_WSREP_XID_DATA + XIDDATASIZE;

/// Number of undo log slots in a rollback segment file copy
#[allow(non_snake_case)]
pub fn TRX_RSEG_N_SLOTS(page_size: usize) -> (r: u32)
    requires
        page_size <= 0x1_0000,
    ensures
        r == page_size / 16,
{
    (page_size / 16) as u32
}

/// Maximum number of transactions supported by a single rollback segment
#[allow(non_snake_case)]
pub fn TRX_RSEG_MAX_N_TRXS(page_size: usize) -> (r: u32)
    requires
        page_size <= 0x1_0000,
    ensures
        r == page_size / 16 / 2,
{
    TRX_RSEG_N_SLOTS(page_size) / 2
}

/// Maximum transaction ID (valid only if TRX_RSEG_FORMAT is 0)
#[allow(non_snake_case)]
pub fn TRX_RSEG_MAX_TRX_ID(page_size: usize) -> (r: u32)
    requires
        page_size <= 0x1_0000,
    ensures
        r == TRX_RSEG_UNDO_SLOTS + page_size / 16 * TRX_RSEG_SLOT_SIZE,
{
    TRX_RSEG_UNDO_SLOTS + TRX_RSEG_N_SLOTS(page_size) * TRX_RSEG_SLOT_SIZE
}

/// The slots in use of a rollback segment header: slot number to page number.
pub open spec fn undo_slots_of(b: Seq<u8>, n_slots: int) -> Map<u32, u32> {
    Map::new(
        |i: u32| i < n_slots && be_u32(field(b, TRX_RSEG_UNDO_SLOTS + 4 * i, 4)) != 0xFFFF_FFFF,
        |i: u32| be_u32(field(b, TRX_RSEG_UNDO_SLOTS + 4 * i, 4)),
    )
}

/// The rollback segment header.
#[allow(non_camel_case_types)]
#[derive(Debug, Clone)]
pub struct trx_rseg_t {
    pub format: u32,
    pub history_size: u32,
    pub history: flst_base_node_t,
    pub fseg_header: fseg_header_t,
    /// slot number -> page number
    pub undo_slots: HashMap<u32, u32>,
    pub max_trx_id: u64,
    pub mysql_log: Option<mysql_log_t>,
    pub wsrep_xid: Option<wsrep_xid_t>,
}

/// The binlog position at the start of `b` (the bytes from
/// TRX_RSEG_MAX_TRX_ID on), if a name is recorded.
pub open spec fn rseg_mysql_log_is(r: Option<mysql_log_t>, b: Seq<u8>) -> bool {
    if b[16] == 0 {
        r is None
    } else {
        &&& r is Some
        &&& r->Some_0.log_offset == be_u64(field(b, 8, 8))
        &&& r->Some_0.log_name@ == utf8_lossy_of(until_nul(field(b, 16, 512)))
    }
}

/// The WSREP XID in `b` (the bytes from TRX_RSEG_MAX_TRX_ID on), if its
/// format is not 0.
pub open spec fn rseg_wsrep_xid_is(r: Option<wsrep_xid_t>, b: Seq<u8>) -> bool {
    if be_u32(field(b, 528, 4)) == 0 {
        r is None
    } else {
        &&& r is Some
        &&& r->Some_0.format == be_u32(field(b, 528, 4))
        &&& r->Some_0.gtrid_len == be_u32(field(b, 532, 4))
        &&& r->Some_0.bqual_len == be_u32(field(b, 536, 4))
        &&& r->Some_0.xid_data@ == field(b, 540, 128)
    }
}

impl trx_rseg_t {
    /// Reads the rollback segment header of a page.
    pub fn from_page(buf: &[u8]) -> (r: trx_rseg_t)
        requires
            4096 <= buf@.len() <= 0x1_0000,
        ensures
            r.format == be_u32(field(buf@, TRX_RSEG as int, 4)),
            r.undo_slots@ == undo_slots_of(
                buf@.subrange(TRX_RSEG as int, buf@.len() as int),
                (buf@.len() / 16) as int,
            ),
    {
        trx_rseg_t::from_buf(&buf[TRX_RSEG as usize..buf.len()], buf.len())
    }

    /// Reads the rollback segment header from the bytes of a page of
    /// `page_size` bytes from TRX_RSEG on.
    pub fn from_buf(buf: &[u8], page_size: usize) -> (r: trx_rseg_t)
        requires
            page_size <= 0x1_0000,
            buf@.len() >= 34 + page_size / 16 * 4 + TRX_RSEG_WSREP_XID_INFO
                + TRX_RSEG_WSREP_XID_LEN,
        ensures
            r.format == be_u32(field(buf@, 0, 4)),
            r.history_size == be_u32(field(buf@, 4, 4)),
            r.history.len == be_u32(field(buf@, 8, 4)),
            r.history.first == addr_at(buf@, 12),
            r.history.last == addr_at(buf@, 18),
            r.fseg_header == fseg_header_at(buf@, 24),
            r.undo_slots@ == undo_slots_of(buf@, (page_size / 16) as int),
            r.max_trx_id == be_u64(field(buf@, 34 + page_size / 16 * 4, 8)),
            rseg_mysql_log_is(
                r.mysql_log,
                buf@.subrange(34 + page_size / 16 * 4, buf@.len() as int),
            ),
            rseg_wsrep_xid_is(
                r.wsrep_xid,
                buf@.subrange(34 + page_size / 16 * 4, buf@.len() as int),
            ),
    {
        broadcast use vstd::std_specs::hash::group_hash_axioms;

        let n = buf.len();
        let format = read_u32_at(buf, TRX_RSEG_FORMAT as usize);
        let history_size = read_u32_at(buf, TRX_RSEG_HISTORY_SIZE as usize);
        let history = flst_base_node_t::from_buf(&buf[8..24]);
        proof {
            let s = buf@.subrange(8, 24);
            assert(field(s, 0, 4) =~= field(buf@, 8, 4));
            assert(field(s, 4, 4) =~= field(buf@, 12, 4));
            assert(field(s, 8, 2) =~= field(buf@, 16, 2));
            assert(field(s, 10, 4) =~= field(buf@, 18, 4));
            assert(field(s, 14, 2) =~= field(buf@, 22, 2));
        }
        let fseg_header = fseg_header_t::from_buf(&buf[24..34]);
        proof {
            let s = buf@.subrange(24, 34);
            assert(field(s, 0, 4) =~= field(buf@, 24, 4));
            assert(field(s, 4, 4) =~= field(buf@, 28, 4));
            assert(field(s, 8, 2) =~= field(buf@, 32, 2));
        }
        let n_slots = TRX_RSEG_N_SLOTS(page_size);
        let mut undo_slots: HashMap<u32, u32> = HashMap::new();
        let mut i: u32 = 0;
        while i < n_slots
            invariant
                n == buf@.len(),
                n_slots == page_size / 16,
                page_size <= 0x1_0000,
                n >= TRX_RSEG_UNDO_SLOTS + n_slots * 4,
                0 <= i <= n_slots,
                undo_slots@ == Map::new(
                    |k: u32|
                        k < i && be_u32(field(buf@, TRX_RSEG_UNDO_SLOTS + 4 * k, 4)) != 0xFFFF_FFFF,
                    |k: u32| be_u32(field(buf@, TRX_RSEG_UNDO_SLOTS + 4 * k, 4)),
                ),
            decreases n_slots - i,
        {
            let slot_offset = (TRX_RSEG_UNDO_SLOTS + i * TRX_RSEG_SLOT_SIZE) as usize;
            let page_no = read_u32_at(buf, slot_offset);
            if page_no != 0xFFFF_FFFF {
                undo_slots.insert(i, page_no);
            }
            assert(undo_slots@ =~= Map::new(
                |k: u32|
                    k < i + 1 && be_u32(field(buf@, TRX_RSEG_UNDO_SLOTS + 4 * k, 4)) != 0xFFFF_FFFF,
                |k: u32| be_u32(field(buf@, TRX_RSEG_UNDO_SLOTS + 4 * k, 4)),
            ));
            i = i + 1;
        }
        assert(undo_slots@ =~= undo_slots_of(buf@, (page_size / 16) as int));
        let max_trx_id_offset = TRX_RSEG_MAX_TRX_ID(page_size) as usize;
        let max_trx_id = read_u64_at(buf, max_trx_id_offset);
        let tail = &buf[max_trx_id_offset..n];
        let mysql_log = mysql_log_t_from_trx_rseg_buf(tail);
        let wsrep_xid = wsrep_xid_t_from_trx_rseg_buf(tail);
        trx_rseg_t {
            format,
            history_size,
            history,
            fseg_header,
            undo_slots,
            max_trx_id,
            mysql_log,
            wsrep_xid,
        }
    }
}

/// The binlog position of a rollback segment header, from the bytes from
/// TRX_RSEG_MAX_TRX_ID on; none where no name is recorded.
pub fn mysql_log_t_from_trx_rseg_buf(buf: &[u8]) -> (r: Option<mysql_log_t>)
    requires
        buf@.len() >= TRX_RSEG_BINLOG_NAME_OFFSET + TRX_RSEG_BINLOG_NAME_LEN,
    ensures
        rseg_mysql_log_is(r, buf@),
{
    if buf[TRX_RSEG_BINLOG_NAME_OFFSET as usize] == 0 {
        return None;
    }
    let end = (TRX_RSEG_BINLOG_NAME_OFFSET + TRX_RSEG_BINLOG_NAME_LEN) as usize;
    let n = nul_position(buf, TRX_RSEG_BINLOG_NAME_OFFSET as usize, end);
    let log_name = lossy_string(&buf[TRX_RSEG_BINLOG_NAME_OFFSET as usize..n]);
    let log_offset = read_u64_at(buf, TRX_RSEG_BINLOG_OFFSET as usize);
    Some(mysql_log_t { log_name, log_offset })
}

/// The WSREP XID of a rollback segment header, from the bytes from
/// TRX_RSEG_MAX_TRX_ID on; none where its format is 0 (not present).
pub fn wsrep_xid_t_from_trx_rseg_buf(buf: &[u8]) -> (r: Option<wsrep_xid_t>)
    requires
        buf@.len() >= TRX_RSEG_WSREP_XID_LEN,
    ensures
        rseg_wsrep_xid_is(r, buf@),
{
    let format = read_u32_at(buf, TRX_RSEG_WSREP_XID_FORMAT as usize);
    if format == 0 {
        return None;
    }
    let gtrid_len = read_u32_at(buf, TRX_RSEG_WSREP_XID_GTRID_LEN as usize);
    let bqual_len = read_u32_at(buf, TRX_RSEG_WSREP_XID_BQUAL_LEN as usize);
    let xid_data = copy_bytes(buf, TRX_RSEG_WSREP_XID_DATA as usize, XIDDATASIZE as usize);
    Some(wsrep_xid_t { format, gtrid_len, bqual_len, xid_data })
}

/// An undo slot in use: slot number and page number.
#[derive(Debug, Clone, Copy, PartialEq, Eq, Structural)]
pub struct UndoSlotPrinter(pub u32, pub u32);

} // verus!
