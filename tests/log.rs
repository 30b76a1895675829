use mdbutil::error::Error;
use mdbutil::log::{Redo, RedoHeader, CHECKPOINT_1, CHECKPOINT_2, FIRST_LSN, FORMAT_10_8};

#[test]
fn test_build_header_10_8() {
    let mut buf = [0u8; FIRST_LSN as usize];
    let hdr = RedoHeader::build_unencrypted_header_10_8(FIRST_LSN, "test_creator");
    let cp = RedoHeader::build_unencrypted_header_10_8_checkpoint(FIRST_LSN, FIRST_LSN);
    buf[0..hdr.len()].copy_from_slice(&hdr);
    buf[CHECKPOINT_1..CHECKPOINT_1 + cp.len()].copy_from_slice(&cp);
    buf[CHECKPOINT_2..CHECKPOINT_2 + cp.len()].copy_from_slice(&cp);

    let header = Redo::parse_header(&buf).expect("Failed to parse header");
    let _checkpoint =
        Redo::parse_header_checkpoint(&buf, &header, 0).expect("Failed to parse checkpoint");
}

#[test]
fn header_round_trip() {
    let hdr = RedoHeader::build_unencrypted_header_10_8(FIRST_LSN, "MariaDB 11.4.2");
    assert_eq!(hdr.len(), 512);
    let parsed = Redo::parse_header(&hdr).unwrap();
    assert_eq!(parsed.version, FORMAT_10_8);
    assert_eq!(parsed.first_lsn, FIRST_LSN);
    assert_eq!(parsed.creator, "MariaDB 11.4.2");
    assert_eq!(parsed.crc, crc32c::crc32c(&hdr[..508]));
    assert_eq!(&hdr[508..512], &parsed.crc.to_be_bytes());
}

#[test]
fn header_creator_is_cut_to_32_bytes() {
    let long = "0123456789abcdefghijklmnopqrstuvwxyz";
    let hdr = RedoHeader::build_unencrypted_header_10_8(FIRST_LSN, long);
    let parsed = Redo::parse_header(&hdr).unwrap();
    assert_eq!(parsed.creator, &long[..32]);
}

#[test]
fn header_errors() {
    assert_eq!(Redo::parse_header(&[0u8; 100]), Err(Error::ShortRead));
    let mut hdr = RedoHeader::build_unencrypted_header_10_8(FIRST_LSN, "x");
    hdr[20] ^= 1;
    assert_eq!(Redo::parse_header(&hdr), Err(Error::HeaderCrc));
    // the original format has no checksum
    let zero = [0u8; 512];
    assert_eq!(Redo::parse_header(&zero).unwrap().version, 0);
}

fn log_image(cp1: u64, cp2: u64) -> Vec<u8> {
    let mut buf = vec![0u8; 16384];
    let hdr = RedoHeader::build_unencrypted_header_10_8(FIRST_LSN, "test_creator");
    buf[..512].copy_from_slice(&hdr);
    let c1 = RedoHeader::build_unencrypted_header_10_8_checkpoint(cp1, cp1);
    let c2 = RedoHeader::build_unencrypted_header_10_8_checkpoint(cp2, cp2);
    buf[CHECKPOINT_1..CHECKPOINT_1 + 64].copy_from_slice(&c1);
    buf[CHECKPOINT_2..CHECKPOINT_2 + 64].copy_from_slice(&c2);
    buf
}

#[test]
fn checkpoint_selection_takes_the_larger() {
    let buf = log_image(20000, 30000);
    let h = Redo::parse_header(&buf).unwrap();
    let c = Redo::parse_header_checkpoint(&buf, &h, 0).unwrap();
    assert_eq!(c.checkpoint_lsn, Some(30000));
    assert_eq!(c.checkpoint_no, Some(0));
    let buf = log_image(30000, 20000);
    let c = Redo::parse_header_checkpoint(&buf, &h, 0).unwrap();
    assert_eq!(c.checkpoint_lsn, Some(30000));
    assert_eq!(c.checkpoint_no, Some(1));
    assert_eq!(c.checkpoints[1].checkpoint_lsn, 20000);
}

#[test]
fn checkpoint_invalid_blocks() {
    let mut buf = log_image(20000, 30000);
    buf[CHECKPOINT_2 + 20] = 1;
    let h = Redo::parse_header(&buf).unwrap();
    let c = Redo::parse_header_checkpoint(&buf, &h, 0).unwrap();
    assert_eq!(c.checkpoint_lsn, Some(20000));
    assert_eq!(c.valid, [true, false]);
    buf[CHECKPOINT_1 + 3] ^= 1;
    assert_eq!(Redo::parse_header_checkpoint(&buf, &h, 0), Err(Error::NoValidCheckpoint));
    let buf = log_image(100, 100);
    assert_eq!(Redo::parse_header_checkpoint(&buf, &h, 0), Err(Error::NoValidCheckpoint));
}

#[test]
fn checkpoint_format_errors() {
    let buf = log_image(20000, 30000);
    let mut h = Redo::parse_header(&buf).unwrap();
    assert_eq!(Redo::parse_header_checkpoint(&buf, &h, 2), Err(Error::UnsupportedMultiFile));
    h.version = 0x5048_5953;
    assert_eq!(Redo::parse_header_checkpoint(&buf, &h, 0), Err(Error::UnsupportedFormat));
    h.version = FORMAT_10_8 | 0x8000_0000;
    assert_eq!(Redo::parse_header_checkpoint(&buf, &h, 0), Err(Error::UnsupportedEncrypted));
    h.version = FORMAT_10_8;
    let mut enc = buf.clone();
    enc[51] = 1;
    assert_eq!(Redo::parse_header_checkpoint(&enc, &h, 0), Err(Error::UnsupportedEncrypted));
    enc[51] = 2;
    assert_eq!(Redo::parse_header_checkpoint(&enc, &h, 0), Err(Error::UnsupportedEncrypted));
    assert_eq!(Redo::parse_crypt_header(&[0, 0, 0, 1]), Ok(true));
    assert_eq!(Redo::parse_crypt_header(&[0, 0]), Err(Error::ShortRead));
    assert_eq!(Redo::parse_header_checkpoint(&buf[..5000], &h, 0), Err(Error::ShortRead));
}

#[test]
fn backup_creator_is_flagged() {
    let mut buf = log_image(20000, 20000);
    let hdr = RedoHeader::build_unencrypted_header_10_8(FIRST_LSN, "Backup 10.11");
    buf[..512].copy_from_slice(&hdr);
    let h = Redo::parse_header(&buf).unwrap();
    assert!(Redo::parse_header_checkpoint(&buf, &h, 0).unwrap().start_after_restore);
}
