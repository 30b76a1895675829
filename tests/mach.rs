use mdbutil::error::Error;
use mdbutil::mach::{
    mach_read_from_2, mach_read_from_4, mach_read_from_8, mach_write_to_4, mach_write_to_8,
};

#[test]
fn big_endian_reads_and_writes() {
    let b = [0x12u8, 0x34, 0x56, 0x78, 0x9a, 0xbc, 0xde, 0xf0];
    assert_eq!(mach_read_from_2(&b), Ok(0x1234));
    assert_eq!(mach_read_from_4(&b), Ok(0x1234_5678));
    assert_eq!(mach_read_from_8(&b), Ok(0x1234_5678_9abc_def0));
    let mut out = [0u8; 9];
    mach_write_to_8(&mut out, 0x0102_0304_0506_0708).unwrap();
    assert_eq!(out, [1, 2, 3, 4, 5, 6, 7, 8, 0]);
    mach_write_to_4(&mut out, 0xaabb_ccdd).unwrap();
    assert_eq!(&out[..5], &[0xaa, 0xbb, 0xcc, 0xdd, 5]);
}

#[test]
fn short_buffers_are_refused() {
    assert_eq!(mach_read_from_2(&[1]), Err(Error::ShortRead));
    assert_eq!(mach_read_from_4(&[1, 2, 3]), Err(Error::ShortRead));
    assert_eq!(mach_read_from_8(&[0; 7]), Err(Error::ShortRead));
    let mut out = [9u8; 3];
    assert_eq!(mach_write_to_4(&mut out, 1), Err(Error::ShortRead));
    assert_eq!(out, [9, 9, 9]);
}
