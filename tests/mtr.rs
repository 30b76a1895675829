use mdbutil::error::Error;
use mdbutil::mtr::{get_sequence_bit, Mtr, MtrChain};
use mdbutil::mtr0types::MtrOperation;
use mdbutil::ring::RingReader;

#[test]
fn test_mtr_short_len() {
    let storage = [
        0xfa, // FILE_CHECKPOINT + len 10 bytes (+1 1st byte + 1 termination marker)
        0x00, 0x00, // tablespace id + page no
        0x00, 0x00, 0x00, 0x00, 0x00, 0x00, 0xde, 0x3d, // checkpoint LSN
        0x01, // marker
        0x1f, 0xa3, 0x52, 0x97, // checksum
    ];
    let buf = &storage;
    let mut r0 = RingReader::new(buf);
    let chain = MtrChain::parse_next(&mut r0).unwrap();
    assert_eq!(chain.len, 16, "len");
}

#[test]
fn test_build_file_checkpoint_marker_1() {
    let mut buf = Vec::new();
    let lsn = 0x000000000000de3d;
    let hdr_size = 0;
    let fake_capacity = 0xffff;
    let marker = get_sequence_bit(hdr_size, fake_capacity, lsn);
    Mtr::build_file_checkpoint(&mut buf, hdr_size, fake_capacity, lsn).unwrap();

    let r0 = RingReader::new(buf.as_slice());
    let chain = MtrChain::parse_next(&mut r0.clone()).unwrap();

    assert_eq!(chain.len, 16, "len");

    let mtr = &chain.mtr[0];
    assert_eq!(mtr.op, MtrOperation::FileCheckpoint, "op");
    assert_eq!(mtr.space_id, 0, "space_id");
    assert_eq!(mtr.page_no, 0, "page_no");
    assert_eq!(mtr.file_checkpoint_lsn, Some(lsn), "file_checkpoint_lsn");

    assert_eq!(marker, 1);
    assert_eq!(
        r0.advanced(buf.len() - 4 - 1).peek_1().unwrap(),
        marker,
        "termination marker"
    );
}

#[test]
fn test_build_file_checkpoint_marker_0() {
    let mut buf = Vec::new();
    let lsn = 0x0000000000000030;
    let hdr_size = 0;
    let fake_capacity = 0x10;
    let marker = get_sequence_bit(hdr_size, fake_capacity, lsn);
    Mtr::build_file_checkpoint(&mut buf, hdr_size, fake_capacity, lsn).unwrap();

    let r0 = RingReader::buf_at(buf.as_slice(), hdr_size as usize, lsn as usize);
    let chain = MtrChain::parse_next(&mut r0.clone()).unwrap();

    assert_eq!(chain.len, 16, "len");

    let mtr = &chain.mtr[0];
    assert_eq!(mtr.op, MtrOperation::FileCheckpoint, "op");
    assert_eq!(mtr.space_id, 0, "space_id");
    assert_eq!(mtr.page_no, 0, "page_no");
    assert_eq!(mtr.file_checkpoint_lsn, Some(lsn), "file_checkpoint_lsn");

    assert_eq!(marker, 0);
    assert_eq!(
        r0.advanced(buf.len() - 4 - 1).peek_1().unwrap(),
        marker,
        "termination marker"
    );
}

#[test]
fn test_parse_next_respects_old_gen() {
    let mut buf = Vec::new();
    // 0x30 / 0x10 = 0x3 & 1 = 1, so the sequence bit is 0.
    let lsn = 0x0000000000000030;
    let hdr_size = 0;
    let fake_capacity = 0x10;
    let marker = get_sequence_bit(hdr_size, fake_capacity, lsn);
    Mtr::build_file_checkpoint(&mut buf, hdr_size, fake_capacity, lsn).unwrap();

    let r0 = RingReader::buf_at(buf.as_slice(), hdr_size as usize, lsn as usize);
    let chain = MtrChain::parse_next(&mut r0.clone()).unwrap();

    assert_eq!(chain.len, 16, "len");

    let mtr = &chain.mtr[0];
    assert_eq!(mtr.op, MtrOperation::FileCheckpoint, "op");
    assert_eq!(mtr.space_id, 0, "space_id");
    assert_eq!(mtr.page_no, 0, "page_no");
    assert_eq!(mtr.file_checkpoint_lsn, Some(lsn), "file_checkpoint_lsn");

    assert_eq!(marker, 0);
    assert_eq!(
        r0.advanced(buf.len() - 4 - 1).peek_1().unwrap(),
        marker,
        "termination marker"
    );
}

#[test]
fn test_parse_next_can_parse_wrap_with_invalid_marker() {
    let mut buf0 = Vec::new();
    let lsn = 0x000000000000003a;
    let hdr_size = 0;
    let fake_capacity = 0x10usize;
    Mtr::build_file_checkpoint(&mut buf0, hdr_size, fake_capacity as u64, lsn).unwrap();

    let mut buf = vec![0u8; fake_capacity];
    let offset = lsn as usize % fake_capacity;
    buf[..offset].copy_from_slice(&buf0[..offset]);
    buf[offset..].copy_from_slice(&buf0[offset..]);

    let r0 = RingReader::buf_at(buf.as_slice(), hdr_size as usize, lsn as usize);
    assert!(MtrChain::parse_next(&mut r0.clone()).is_err());
}

#[test]
fn test_parse_next_can_parse_wrap_with_valid_marker() {
    let mut buf0 = Vec::new();
    let lsn = 0x000000000000002a;
    let hdr_size = 0;
    let fake_capacity = 0x10usize;
    Mtr::build_file_checkpoint(&mut buf0, hdr_size, fake_capacity as u64, lsn).unwrap();

    let mut buf = vec![0u8; fake_capacity];
    let offset = lsn as usize % fake_capacity;
    buf[..offset].copy_from_slice(&buf0[..offset]);
    buf[offset..].copy_from_slice(&buf0[offset..]);

    let r0 = RingReader::buf_at(buf.as_slice(), hdr_size as usize, lsn as usize);
    assert!(MtrChain::parse_next(&mut r0.clone()).is_err());
}

#[test]
fn test_parse_mtr_chain() {
    let buf = vec![
        // MTR Chain count=2, len=123, lsn=163
        //   1: Mtr { space_id: 3, page_no: 45, op: Extended }
        //   2: Mtr { space_id: 3, page_no: 45, op: Option }
        0x20, 0x5e, 0x3, 0x2d, 0x3, 0xd, 0x3, 0xf, 0x20, 0x0, 0x0, 0x0, 0x0, 0x17, 0xc6, 0x0,
        0x0, 0x0, 0x2d, 0x1, 0x78, 0x4, 0x74, 0x65, 0x73, 0x74, 0x1, 0x61, 0x7, 0x50, 0x52,
        0x49, 0x4d, 0x41, 0x52, 0x59, 0xc, 0x6e, 0x5f, 0x64, 0x69, 0x66, 0x66, 0x5f, 0x70,
        0x66, 0x78, 0x30, 0x31, 0x3, 0x6, 0x4, 0x68, 0x84, 0xa2, 0x89, 0x7, 0x8, 0x0, 0x0, 0x0,
        0x0, 0x0, 0x0, 0x0, 0x6, 0x8, 0x8, 0x0, 0x0, 0x0, 0x0, 0x0, 0x0, 0x0, 0x1, 0x0, 0x22,
        0x0, 0x4, 0x74, 0x65, 0x73, 0x74, 0x1, 0x1, 0x61, 0x2, 0x7, 0x50, 0x52, 0x49, 0x4d,
        0x41, 0x52, 0x59, 0x3, 0xc, 0x6e, 0x5f, 0x64, 0x69, 0x66, 0x66, 0x5f, 0x70, 0x66, 0x78,
        0x30, 0x31, 0x77, 0x3, 0x2d, 0x0, 0x80, 0x89, 0x7e, 0x61, 0x0, 0xa8, 0xf3, 0xd8, 0x55,
        // MTR Chain count=1, len=39, lsn=286
        //   1: Mtr { space_id: 0, page_no: 0, op: FileModify }
        0xb0, 0x12, 0x4, 0x0, 0x2e, 0x2f, 0x6d, 0x79, 0x73, 0x71, 0x6c, 0x2f, 0x69, 0x6e, 0x6e,
        0x6f, 0x64, 0x62, 0x5f, 0x74, 0x61, 0x62, 0x6c, 0x65, 0x5f, 0x73, 0x74, 0x61, 0x74,
        0x73, 0x2e, 0x69, 0x62, 0x64, 0x0, 0xff, 0x42, 0xf0, 0x81,
        // Termination marker.
        0x00,
    ];

    let mut r0 = RingReader::buf_at(buf.as_slice(), 0, buf.len());
    let chain = MtrChain::parse_next(&mut r0).unwrap();

    assert_eq!(chain.len(), 123, "chain len in bytes");
    assert_eq!(chain.mtr.len(), 2, "chain mtr count");

    let chain = MtrChain::parse_next(&mut r0).unwrap();

    assert_eq!(chain.len(), 39, "chain len in bytes");
    assert_eq!(chain.mtr.len(), 1, "chain mtr count");
}

#[test]
fn sequence_bit_flips_every_pass() {
    let cap = 1_036_288u64;
    for lsn in [12288u64, 12289, 12288 + cap - 1, 500_000, 12288 + 3 * cap + 7] {
        let a = get_sequence_bit(12288, cap, lsn);
        let b = get_sequence_bit(12288, cap, lsn + cap);
        assert_eq!(a + b, 1);
    }
    assert_eq!(get_sequence_bit(12288, cap, 12288), 1);
    assert_eq!(get_sequence_bit(12288, cap, 12288 + cap), 0);
}

#[test]
fn build_file_checkpoint_bytes_and_errors() {
    let mut buf = vec![7u8];
    Mtr::build_file_checkpoint(&mut buf, 0, 0x10, 0x30).unwrap();
    assert_eq!(buf.len(), 17);
    assert_eq!(&buf[1..12], &[0xfa, 0, 0, 0, 0, 0, 0, 0, 0, 0, 0x30]);
    assert_eq!(buf[12], 0);
    let crc = crc32c::crc32c(&buf[1..12]);
    assert_eq!(&buf[13..17], &crc.to_be_bytes());

    let mut out = Vec::new();
    assert_eq!(Mtr::build_file_checkpoint(&mut out, 100, 10, 99), Err(Error::InvalidInput));
    assert_eq!(
        Mtr::build_file_checkpoint(&mut out, 0, 10, u64::MAX - 15),
        Err(Error::InvalidInput)
    );
    assert_eq!(Mtr::build_file_checkpoint(&mut out, 0, 0, 5), Err(Error::InvalidInput));
    assert!(out.is_empty());
    Mtr::build_file_checkpoint(&mut out, 0, 10, u64::MAX - 16).unwrap();
    assert_eq!(out.len(), 16);
}

#[test]
fn chain_checksum_mismatch_and_end_of_stream() {
    let mut buf = Vec::new();
    Mtr::build_file_checkpoint(&mut buf, 0, 0x20, 0).unwrap();
    buf.extend_from_slice(&[0u8; 16]);
    let mut bad = buf.clone();
    bad[5] ^= 0x40;
    let mut r = RingReader::new(bad.as_slice());
    assert_eq!(MtrChain::parse_next(&mut r), Err(Error::ChainChecksum));
    let mut r = RingReader::new(buf.as_slice());
    assert!(MtrChain::parse_next(&mut r).is_ok());
    assert_eq!(r.pos(), 16);
    assert_eq!(MtrChain::parse_next(&mut r), Err(Error::EndOfStream));
}

#[test]
fn chain_overrun_and_malformed_varint() {
    // records of 15 payload bytes each, never terminated
    let storage = vec![0x3fu8; 4096];
    let mut r = RingReader::new(storage.as_slice());
    assert_eq!(MtrChain::find_end_marker(&mut r), Err(Error::ChainOverrun));
    let storage = [0x30u8, 0xf8, 0, 0, 0, 0, 0, 0];
    let mut r = RingReader::new(&storage);
    assert_eq!(MtrChain::find_end_marker(&mut r), Err(Error::MalformedVarint));
}
