//! Undo log page headers.
use vstd::prelude::*;

use crate::fut0lst::{flst_node_t, FLST_BASE_NODE_SIZE, FLST_NODE_SIZE};
use crate::mach::{be_u16, field, read_u16_at};

verus! {

/// The offset of the undo log page header on pages of the undo log
pub const TRX_UNDO_PAGE_HDR: u32 = crate::fsp0types::FSEG_PAGE_DATA;

/// unused; 0 (before MariaDB 10.3.1: 1=TRX_UNDO_INSERT or 2=TRX_UNDO_UPDATE).
pub const TRX_UNDO_PAGE_TYPE: u32 = 0;

/// Byte offset where the undo log records for the LATEST transaction start on
/// this page.
pub const TRX_UNDO_PAGE_START: u32 = 2;

/// Byte offset of the first free byte on the page.
pub const TRX_UNDO_PAGE_FREE: u32 = 4;

/// The file list node in the chain of undo log pages.
pub const TRX_UNDO_PAGE_NODE: u32 = 6;

/// Size of the transaction undo log page header, in bytes.
pub const TRX_UNDO_PAGE_HDR_SIZE: u32 = 6 + FLST_NODE_SIZE;

/// The offset of the undo log segment header on the first page of the undo
/// log segment
pub const TRX_UNDO_SEG_HDR: u32 = TRX_UNDO_PAGE_HDR + TRX_UNDO_PAGE_HDR_SIZE;

/// TRX_UNDO_ACTIVE, ...
pub const TRX_UNDO_STATE: u32 = 0;

/// Offset of the last undo log header on the segment header page, 0 if none
pub const TRX_UNDO_LAST_LOG: u32 = 2;

/// Header for the file segment which the undo log segment occupies
pub const TRX_UNDO_FSEG_HEADER: u32 = 4;

/// Base node for the list of pages in the undo log segment
pub const TRX_UNDO_PAGE_LIST: u32 = 4 + 10;

/// Size of the undo log segment header
pub const TRX_UNDO_SEG_HDR_SIZE: u32 = 4 + 10 + FLST_BASE_NODE_SIZE;

/// Transaction start identifier, or 0 if the undo log segment has been
/// completely purged
pub const TRX_UNDO_TRX_ID: u32 = 0;

/// Transaction end identifier (if the log is in a history list), or 0 if not
/// committed
pub const TRX_UNDO_TRX_NO: u32 = 8;

/// (removed in MariaDB 11.0)
pub const TRX_UNDO_NEEDS_PURGE: u32 = 16;

/// Offset of the first undo log record of this log on the header page
pub const TRX_UNDO_LOG_START: u32 = 18;

/// TRUE if undo log header includes X/Open XA transaction identification XID
pub const TRX_UNDO_XID_EXISTS: u32 = 20;

/// TRUE if the transaction is a table create, index create, or drop
/// transaction
pub const TRX_UNDO_DICT_TRANS: u32 = 21;

/// Id of the table if the preceding field is TRUE
pub const TRX_UNDO_TABLE_ID: u32 = 22;

/// Offset of the next undo log header on this page, 0 if none
pub const TRX_UNDO_NEXT_LOG: u32 = 30;

/// Offset of the previous undo log header on this page, 0 if none
pub const TRX_UNDO_PREV_LOG: u32 = 32;

/// If the log is put to the history list, the file list node is here
pub const TRX_UNDO_HISTORY_NODE: u32 = 34;

/// Size of the undo log header without XID information
pub const TRX_UNDO_LOG_OLD_HDR_SIZE: u32 = 34 + FLST_NODE_SIZE;

/// xid_t::formatID
pub const TRX_UNDO_XA_FORMAT: u32 = TRX_UNDO_LOG_OLD_HDR_SIZE;

/// xid_t::gtrid_length
pub const TRX_UNDO_XA_TRID_LEN: u32 = TRX_UNDO_XA_FORMAT + 4;

/// xid_t::bqual_length
pub const TRX_UNDO_XA_BQUAL_LEN: u32 = TRX_UNDO_XA_TRID_LEN + 4;

/// Distributed transaction identifier data
pub const TRX_UNDO_XA_XID: u32 = TRX_UNDO_XA_BQUAL_LEN + 4;

/// Total size of the undo log header with the XA XID
pub const TRX_UNDO_LOG_XA_HDR_SIZE: u32 = TRX_UNDO_XA_XID + crate::wsrep::XIDDATASIZE;

/// An update undo segment with just one page can be reused if it has at most
/// this many bytes used: three quarters of the page.
#[allow(non_snake_case)]
pub fn TRX_UNDO_PAGE_REUSE_LIMIT(page_size: u32) -> (r: u32)
    requires
        crate::univ::is_page_size(page_size as int),
    ensures
        r == page_size / 4 * 3,
{
    let shift = crate::univ::page_size_shift(page_size);
    proof {
        vstd::arithmetic::power2::lemma2_to64();
    }
    let r = 3u32 << (shift - 2);
    assert(r == page_size / 4 * 3) by (bit_vector)
        requires
            r == 3u32 << ((shift - 2) as u32),
            12 <= shift <= 16,
            shift == 12 ==> page_size == 4096,
            shift == 13 ==> page_size == 8192,
            shift == 14 ==> page_size == 16384,
            shift == 15 ==> page_size == 32768,
            shift == 16 ==> page_size == 65536,
    ;
    r
}

/// The undo log page header.
#[allow(non_camel_case_types)]
#[derive(Debug, Clone, Copy, PartialEq, Eq, Structural)]
pub struct trx_undo_page_t {
    /// unused; 0 (before MariaDB 10.3.1: 1=TRX_UNDO_INSERT or
    /// 2=TRX_UNDO_UPDATE).
    pub page_type: u16,
    /// Byte offset where the undo log records for the LATEST transaction start
    /// on this page.
    pub start: u16,
    /// Byte offset of the first free byte on the page.
    pub free: u16,
    /// The file list node in the chain of undo log pages.
    pub node: flst_node_t,
}

impl trx_undo_page_t {
    /// Reads the undo log page header of a page.
    pub fn from_page(page: &[u8]) -> (r: trx_undo_page_t)
        requires
            page@.len() >= TRX_UNDO_PAGE_HDR + TRX_UNDO_PAGE_HDR_SIZE,
        ensures
            r == undo_page_header_at(page@.subrange(TRX_UNDO_PAGE_HDR as int, page@.len() as int)),
    {
        trx_undo_page_t::from_buf(&page[TRX_UNDO_PAGE_HDR as usize..page.len()])
    }

    /// Reads a transaction undo log page header from the start of `buf`.
    pub fn from_buf(buf: &[u8]) -> (r: trx_undo_page_t)
        requires
            buf@.len() >= TRX_UNDO_PAGE_HDR_SIZE,
        ensures
            r == undo_page_header_at(buf@),
    {
        let page_type = read_u16_at(buf, TRX_UNDO_PAGE_TYPE as usize);
        let start = read_u16_at(buf, TRX_UNDO_PAGE_START as usize);
        let free = read_u16_at(buf, TRX_UNDO_PAGE_FREE as usize);
        let node = flst_node_t::from_buf(
            &buf[TRX_UNDO_PAGE_NODE as usize..TRX_UNDO_PAGE_NODE as usize + 12],
        );
        let ghost sub = buf@.subrange(6, 18);
        assert(crate::fut0lst::addr_at(sub, 0) == crate::fut0lst::addr_at(buf@, 6)) by {
            assert(field(sub, 0, 4) =~= field(buf@, 6, 4));
            assert(field(sub, 4, 2) =~= field(buf@, 10, 2));
        }
        assert(crate::fut0lst::addr_at(sub, 6) == crate::fut0lst::addr_at(buf@, 12)) by {
            assert(field(sub, 6, 4) =~= field(buf@, 12, 4));
            assert(field(sub, 10, 2) =~= field(buf@, 16, 2));
        }
        trx_undo_page_t { page_type, start, free, node }
    }
}

/// The undo log page header at the start of `b`.
pub open spec fn undo_page_header_at(b: Seq<u8>) -> trx_undo_page_t {
    trx_undo_page_t {
        page_type: be_u16(field(b, 0, 2)),
        start: be_u16(field(b, 2, 2)),
        free: be_u16(field(b, 4, 2)),
        node: flst_node_t {
            prev: crate::fut0lst::addr_at(b, 6),
            next: crate::fut0lst::addr_at(b, 12),
        },
    }
}

} // verus!
