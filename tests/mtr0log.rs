use mdbutil::error::Error;
use mdbutil::mtr0log::{mlog_decode_varint, mlog_decode_varint_length, mlog_encode_varint};

#[test]
fn test_varint() {
    let nums: [u32; 4] = [0x01, 0x1234, 0x123456, 0x12345678];
    for num in nums {
        let mut buf = Vec::<u8>::new();
        mlog_encode_varint(&mut buf, num).unwrap();
        assert_eq!(mlog_decode_varint(buf.as_slice()).unwrap(), num, "buf: {buf:#x?}");
    }
}

#[test]
fn varint_round_trip_at_range_edges() {
    let nums: [u32; 10] = [
        0,
        127,
        128,
        16511,
        16512,
        2113663,
        2113664,
        270549119,
        270549120,
        u32::MAX - 1,
    ];
    let lens = [1usize, 1, 2, 2, 3, 3, 4, 4, 5, 5];
    for (num, len) in nums.iter().zip(lens.iter()) {
        let mut buf = Vec::<u8>::new();
        mlog_encode_varint(&mut buf, *num).unwrap();
        assert_eq!(buf.len(), *len);
        assert_eq!(mlog_decode_varint_length(buf[0]) as usize, *len);
        buf.push(0xee);
        assert_eq!(mlog_decode_varint(buf.as_slice()).unwrap(), *num);
    }
}

#[test]
fn varint_exact_encodings() {
    let mut buf = Vec::<u8>::new();
    mlog_encode_varint(&mut buf, 128).unwrap();
    assert_eq!(buf, vec![0x80, 0x00]);
    let mut buf = Vec::<u8>::new();
    mlog_encode_varint(&mut buf, 0x1234).unwrap();
    assert_eq!(buf, vec![0x91, 0xb4]);
}

#[test]
fn varint_errors() {
    let mut buf = Vec::<u8>::new();
    assert_eq!(mlog_encode_varint(&mut buf, u32::MAX), Err(Error::InvalidInput));
    assert!(buf.is_empty());
    assert_eq!(mlog_decode_varint(&[0xf8, 0, 0, 0, 0]), Err(Error::MalformedVarint));
    assert_eq!(mlog_decode_varint(&[0xf0, 0xff, 0xff, 0xff, 0xff]), Err(Error::MalformedVarint));
    assert_eq!(mlog_decode_varint(&[0xc1, 0x00]), Err(Error::ShortRead));
    assert_eq!(mlog_decode_varint(&[]), Err(Error::ShortRead));
}
