use mdbutil::error::Error;
use mdbutil::fil0fil::{
    is_valid_flags, logical_size, physical_size, tablespace_flags_to_string, zip_size,
};
use mdbutil::page_buf::{make_page_footer, make_undo_log_page};
use mdbutil::tablespace::{TablespaceReader, TablespaceWriter};

fn first_page_image(space_id: u32, pages: usize) -> Vec<u8> {
    let mut img = vec![0u8; 16384 * pages];
    let mut page = vec![0u8; 16384];
    make_undo_log_page(&mut page, space_id, 0, 4242, 0x15).unwrap();
    page[38..42].copy_from_slice(&space_id.to_be_bytes());
    page[54..58].copy_from_slice(&0x15u32.to_be_bytes());
    make_page_footer(&mut page).unwrap();
    img[..16384].copy_from_slice(&page);
    img
}

#[test]
fn first_page_validates() {
    let img = first_page_image(5, 2);
    let mut r = TablespaceReader::new(&img, 16384);
    r.parse_first_page().unwrap();
    assert_eq!(r.space_id(), 5);
    assert_eq!(r.flags(), 0x15);
    r.validate_first_page().unwrap();
    assert_eq!(r.page(0).unwrap().page_lsn, 4242);
    assert!(r.page(2).is_err());
    assert_eq!(r.read_4(34).unwrap(), 5);
    assert_eq!(r.block(16384 * 2 - 1, 2), Err(Error::ShortRead));
}

#[test]
fn first_page_errors() {
    let mut img = first_page_image(5, 1);
    img[100] ^= 1;
    let mut r = TablespaceReader::new(&img, 16384);
    r.parse_first_page().unwrap();
    assert_eq!(r.validate_first_page(), Err(Error::PageChecksum));

    let mut img = first_page_image(5, 1);
    img[41] = 6;
    let r = TablespaceReader::new(&img, 16384);
    assert_eq!(r.read_first_page_flags(), Err(Error::InvalidData));

    let img = first_page_image(5, 1);
    let mut r = TablespaceReader::new(&img, 4096);
    assert_eq!(r.parse_first_page(), Err(Error::InvalidData));

    let blank = vec![0u8; 16384];
    let r = TablespaceReader::new(&blank, 16384);
    assert_eq!(r.validate_first_page(), Err(Error::InvalidData));
}

#[test]
fn writer_replaces_a_page() {
    let mut w = TablespaceWriter::new(vec![0u8; 8192], 4096, 3, 0x13);
    w.page_buf(1, &[7u8; 4096]).unwrap();
    assert!(w.page_buf(2, &[7u8; 4096]).is_err());
    let img = w.mmap_mut();
    assert_eq!(img[4096], 7);
    assert_eq!(img[4095], 0);
}

#[test]
fn flags_sizes_and_validity() {
    assert_eq!(logical_size(0x15), 16384);
    assert_eq!(logical_size(0x13), 4096);
    assert_eq!(logical_size(0), 16384);
    assert_eq!(logical_size(3 << 6), 4096);
    assert_eq!(logical_size(5 << 6), 0);
    assert_eq!(zip_size(0x15), 0);
    assert_eq!(zip_size(0x21 | (4 << 1)), 8192);
    assert_eq!(physical_size(0x21 | (4 << 1), 16384), 8192);
    assert_eq!(physical_size(0, 16384), 16384);
    assert!(is_valid_flags(0x15, true, 16384));
    assert!(is_valid_flags(0, true, 16384));
    assert!(!is_valid_flags(0x20, true, 16384));
    assert!(!is_valid_flags(1 << 20, true, 16384));
    assert!(!is_valid_flags(0x10 | (7 << 5) | 5, true, 16384));
    assert!(!is_valid_flags(5 << 6, false, 16384));
}

#[test]
fn flags_text() {
    assert_eq!(tablespace_flags_to_string(0x15), "FULL_CRC32|PAGE_SSIZE=5|POST_ANTELOPE|RAW=0x00000015");
    assert_eq!(tablespace_flags_to_string(0), "RAW=0x00000000");
    assert_eq!(
        tablespace_flags_to_string(0x21 | (4 << 1) | (1 << 10)),
        "ZIP_SSIZE=4|ATOMIC_BLOBS|POST_ANTELOPE|RESERVED=1|RAW=0x00000429"
    );
    assert_eq!(
        tablespace_flags_to_string((1 << 16) | (4 << 6)),
        "PAGE_SSIZE=4|COMPRESSION|RAW=0x00010100"
    );
}
