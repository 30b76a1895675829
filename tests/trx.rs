use mdbutil::trx0rseg::{trx_rseg_t, TRX_RSEG_MAX_TRX_ID, TRX_RSEG_N_SLOTS};
use mdbutil::trx0sys::{trx_sys_t, TRX_SYS_WSREP_XID_INFO};
use mdbutil::trx0undo::{trx_undo_page_t, TRX_UNDO_PAGE_REUSE_LIMIT};
use mdbutil::page_buf::make_undo_log_page;

#[test]
fn undo_page_header_reads_back() {
    let mut page = vec![0u8; 16384];
    make_undo_log_page(&mut page, 1, 50, 789, 0x15).unwrap();
    let u = trx_undo_page_t::from_page(&page);
    assert_eq!(u.page_type, 0);
    assert_eq!(u.start, 18);
    assert_eq!(u.free, 18);
    assert_eq!(u.node.prev.page, 0xFFFF_FFFF);
    assert_eq!(u.node.next.boffset, 0);
    assert_eq!(TRX_UNDO_PAGE_REUSE_LIMIT(16384), 12288);
}

#[test]
fn rollback_segment_slots() {
    let mut page = vec![0xffu8; 4096];
    for b in page[..38 + 34].iter_mut() {
        *b = 0;
    }
    let slots = 38 + 34;
    page[slots + 8..slots + 12].copy_from_slice(&77u32.to_be_bytes());
    let max_id = 38 + TRX_RSEG_MAX_TRX_ID(4096) as usize;
    page[max_id..max_id + 8].copy_from_slice(&99u64.to_be_bytes());
    page[max_id + 16] = 0;
    page[max_id + 528..max_id + 532].copy_from_slice(&0u32.to_be_bytes());
    let r = trx_rseg_t::from_page(&page);
    assert_eq!(TRX_RSEG_N_SLOTS(4096), 256);
    assert_eq!(r.undo_slots.len(), 1);
    assert_eq!(r.undo_slots.get(&2), Some(&77));
    assert_eq!(r.max_trx_id, 99);
    assert!(r.mysql_log.is_none());
    assert!(r.wsrep_xid.is_none());
}

#[test]
fn transaction_system_header() {
    let mut page = vec![0u8; 4096];
    page[38..46].copy_from_slice(&1234u64.to_be_bytes());
    page[38 + 18..38 + 22].copy_from_slice(&9u32.to_be_bytes());
    page[38 + 22..38 + 26].copy_from_slice(&6u32.to_be_bytes());
    let log = 4096 - 1000;
    page[log + 12..log + 15].copy_from_slice(b"bin");
    let t = trx_sys_t::from_page(&page);
    assert_eq!(t.id_store, 1234);
    assert_eq!(t.rsegs.len(), 127);
    assert_eq!(t.rsegs[0].space_id, 9);
    assert_eq!(t.rsegs[0].page_no, 6);
    assert_eq!(t.mysql_log.name, "bin");
    assert_eq!(t.wsrep_xid.xid_data.len(), 128);
    assert_eq!(TRX_SYS_WSREP_XID_INFO(16384), 12884);
    assert_eq!(TRX_SYS_WSREP_XID_INFO(4096), 1596);
}
