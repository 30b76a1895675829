use mdbutil::error::Error;
use mdbutil::log::{write_log, Redo, RedoHeader, CHECKPOINT_1, CHECKPOINT_2, FIRST_LSN};
use mdbutil::mtr::get_sequence_bit;
use mdbutil::mtr0types::MtrOperation;
use mdbutil::ring::RingWriter;

const SIZE: usize = 1024 * 1024;
const CAPACITY: u64 = 1_036_288;

fn build(lsn: u64) -> Vec<u8> {
    let mut w = RingWriter::buf_at(vec![0u8; SIZE], FIRST_LSN as usize, 0);
    write_log(&mut w, lsn, "test_creator").unwrap();
    w.into_inner()
}

fn read_back(buf: &[u8], lsn: u64) {
    let log = Redo::from_buf(buf, 0).unwrap();
    assert_eq!(log.header().first_lsn, FIRST_LSN);
    assert_eq!(log.capacity(), CAPACITY);
    assert!(!log.checkpoint().encrypted);
    assert_eq!(log.checkpoint().checkpoint_lsn, Some(lsn));
    assert_eq!(log.checkpoint().end_lsn, lsn);
    let mut reader = log.reader();
    assert_eq!(reader.reader().pos(), lsn as usize);
    let chain = reader.parse_next().unwrap();
    assert_eq!(chain.len, 16);
    assert_eq!(chain.lsn, lsn);
    assert_eq!(chain.mtr.len(), 1);
    assert_eq!(chain.mtr[0].op, MtrOperation::FileCheckpoint);
    assert_eq!(chain.mtr[0].file_checkpoint_lsn, Some(lsn));
    assert_eq!(chain.mtr[0].marker, log.get_sequence_bit(lsn + 11));
    assert_eq!(reader.parse_next(), Err(Error::EndOfStream));
}

#[test]
fn fresh_log_at_first_lsn() {
    let buf = build(12288);
    let hdr = Redo::parse_header(&buf).unwrap();
    assert_eq!(hdr.first_lsn, 12288);
    let cp = Redo::parse_header_checkpoint(&buf, &hdr, 0).unwrap();
    assert_eq!(cp.checkpoints[0].checkpoint_lsn, 12288);
    assert_eq!(cp.checkpoints[1].checkpoint_lsn, 12288);
    read_back(&buf, 12288);
}

#[test]
fn log_one_byte_past_the_first_wrap() {
    let lsn = 12288 + CAPACITY + 1;
    let buf = build(lsn);
    assert_eq!(get_sequence_bit(12288, CAPACITY, lsn + 11), 0);
    let offset = 12288 + ((lsn + 11 - 12288) % CAPACITY) as usize;
    assert_eq!(buf[offset], 0);
    read_back(&buf, lsn);
}

#[test]
fn chain_straddles_the_wrap() {
    let lsn = 12288 + 2 * CAPACITY - 8;
    let buf = build(lsn);
    assert_eq!(buf[SIZE - 8], 0xfa);
    read_back(&buf, lsn);
}

#[test]
fn corrupt_payload_byte_is_a_checksum_error() {
    let mut buf = build(12288);
    buf[12288 + 5] ^= 0x10;
    let log = Redo::from_buf(&buf, 0).unwrap();
    let mut reader = log.reader();
    assert_eq!(reader.parse_next(), Err(Error::ChainChecksum));
}

#[test]
fn flipped_terminator_is_end_of_stream() {
    let mut buf = build(12288);
    let bit = get_sequence_bit(12288, CAPACITY, 12288 + 11);
    buf[12288 + 11] = 1 - bit;
    let log = Redo::from_buf(&buf, 0).unwrap();
    let mut reader = log.reader();
    assert_eq!(reader.parse_next(), Err(Error::EndOfStream));
}

#[test]
fn two_checkpoints_open_at_the_larger() {
    let mut buf = build(30000);
    let c1 = RedoHeader::build_unencrypted_header_10_8_checkpoint(20000, 20000);
    buf[CHECKPOINT_1..CHECKPOINT_1 + 64].copy_from_slice(&c1);
    let c2 = RedoHeader::build_unencrypted_header_10_8_checkpoint(30000, 30000);
    buf[CHECKPOINT_2..CHECKPOINT_2 + 64].copy_from_slice(&c2);
    let log = Redo::from_buf(&buf, 0).unwrap();
    assert_eq!(log.checkpoint().checkpoint_lsn, Some(30000));
    let mut reader = log.reader();
    assert_eq!(reader.reader().pos(), 30000);
    assert_eq!(reader.reader().header(), 12288);
    let chain = reader.parse_next().unwrap();
    assert_eq!(chain.mtr[0].file_checkpoint_lsn, Some(30000));
}

#[test]
fn open_errors() {
    assert_eq!(Redo::from_buf(&[0u8; 1000], 0).err(), Some(Error::ShortRead));
    let buf = build(12288);
    assert_eq!(Redo::from_buf(&buf, 1).err(), Some(Error::UnsupportedMultiFile));
    let mut w = RingWriter::buf_at(vec![0u8; SIZE], FIRST_LSN as usize, 0);
    assert_eq!(write_log(&mut w, 100, "x"), Err(Error::InvalidInput));
}
