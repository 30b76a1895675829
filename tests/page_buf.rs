use mdbutil::buf0buf::buf_page_is_corrupted;
use mdbutil::error::Error;
use mdbutil::fil0fil;
use mdbutil::page_buf::{make_undo_log_page, PageBuf};

#[test]
pub fn make_undo_log_page_test() {
    let flags = 0x15u32; // general full crc32 tablespace without encryption and compression
    let page_size = 16 * 1024;
    let space_id = 1;
    let page_no = 50;
    let page_lsn = 789;

    let mut page = vec![0u8; page_size];

    make_undo_log_page(&mut page, space_id, page_no, page_lsn, flags).unwrap();

    let page = PageBuf::new(0x15, &page);

    assert_eq!(page.space_id, space_id);
    assert_eq!(page.page_no, page_no);
    assert_eq!(page.page_lsn, page_lsn);
    assert_eq!(page.page_type, fil0fil::FIL_PAGE_UNDO_LOG);
    assert_eq!(page.head_checksum, 0);
    assert_eq!(page.foot_lsn, page_lsn as u32);

    page.corrupted(Some(789)).unwrap();
}

#[test]
fn zero_page_is_not_corrupted() {
    let page = vec![0u8; 16384];
    let p = PageBuf::new(0x15, &page);
    assert_eq!(buf_page_is_corrupted(&p, None), Ok(()));
}

#[test]
fn flipping_a_bit_corrupts_a_page() {
    let mut page = vec![0u8; 16384];
    make_undo_log_page(&mut page, 3, 7, 1000, 0x15).unwrap();
    for pos in [0usize, 40, 8000, 16383] {
        for bit in [0u8, 7] {
            let mut copy = page.clone();
            copy[pos] ^= 1 << bit;
            let p = PageBuf::new(0x15, &copy);
            assert_eq!(p.corrupted(None), Err(Error::PageChecksum));
        }
    }
}

#[test]
fn legacy_and_compressed_pages() {
    let page = vec![0u8; 16384];
    let p = PageBuf::new(0, &page);
    assert_eq!(p.corrupted(None), Err(Error::UnsupportedLegacyChecksum));
    let mut page = vec![0u8; 4096];
    // compressed marker with a size of 0x20 * 256 = 8192 > 4096
    page[24] = 0x80;
    page[25] = 0x20;
    let p = PageBuf::new(0x13, &page);
    assert_eq!(p.corrupted(None), Err(Error::PageChecksum));
}

#[test]
fn make_undo_log_page_rejects_other_flags() {
    let mut page = vec![0u8; 16384];
    assert_eq!(make_undo_log_page(&mut page, 1, 2, 3, 0x13), Err(Error::InvalidInput));
    let mut short = vec![0u8; 4096];
    assert_eq!(make_undo_log_page(&mut short, 1, 2, 3, 0x15), Err(Error::InvalidInput));
}

#[test]
fn compressed_page_of_full_size_is_not_corrupted() {
    // compressed marker with a size of 0x10 * 256 = 4096, the page size
    let mut page = vec![0u8; 4096];
    page[24] = 0x80;
    page[25] = 0x10;
    page[100] = 42;
    let crc = crc32c::crc32c(&page[..4092]);
    page[4092..].copy_from_slice(&crc.to_be_bytes());
    let p = PageBuf::new(0x13, &page);
    assert_eq!(p.corrupted(None), Ok(()));
    // a size that exceeds the page is corrupted
    page[25] = 0x11;
    let p = PageBuf::new(0x13, &page);
    assert_eq!(p.corrupted(None), Err(Error::PageChecksum));
    // a smaller compressed size checks only its payload
    let mut page = vec![0u8; 4096];
    page[24] = 0x80;
    page[25] = 0x08;
    page[3000] = 9;
    let crc = crc32c::crc32c(&page[..2044]);
    page[2044..2048].copy_from_slice(&crc.to_be_bytes());
    let p = PageBuf::new(0x13, &page);
    assert_eq!(p.corrupted(None), Ok(()));
}
