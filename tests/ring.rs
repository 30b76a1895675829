use mdbutil::ring::{RingReader, RingWriter, SeekFrom};

#[test]
fn test_ring_reader() {
    let storage = [1u8, 2, 3, 4, 5];
    let buf = &storage;

    let r0 = RingReader::new(buf);
    let mut r1 = r0.clone();

    assert_eq!(r1.read_1().unwrap(), 1);
    assert_eq!(r1.read_1().unwrap(), 2, "{r1:#?}");
    assert_eq!(r1.read_1().unwrap(), 3);
    assert_eq!(r1.read_1().unwrap(), 4);
    assert_eq!(r1.read_1().unwrap(), 5);

    let mut d2 = [0u8; 2];
    r1.read_exact(&mut d2).unwrap();
    assert_eq!(&d2, &[1, 2]);
    r1.read_exact(&mut d2).unwrap();
    assert_eq!(&d2, &[3, 4]);
    r1.read_exact(&mut d2).unwrap();
    assert_eq!(&d2, &[5, 1]);

    let mut d4 = [0u8; 4];
    r1.read_exact(&mut d4).unwrap();
    assert_eq!(&d4, &[2, 3, 4, 5]);

    let mut d6 = [0u8; 6];
    r1.read(&mut d6).unwrap();
    assert_eq!(&d6, &[1, 2, 3, 4, 5, 0]);

    let r0 = RingReader::buf_at(buf, 1, 0);
    let mut r1 = r0.clone();

    assert_eq!(r1.read_1().unwrap(), 1);
    assert_eq!(r1.read_1().unwrap(), 2, "{r1:#?}");
    assert_eq!(r1.read_1().unwrap(), 3);
    assert_eq!(r1.read_1().unwrap(), 4);
    assert_eq!(r1.read_1().unwrap(), 5);

    let r0 = RingReader::buf_at(buf, 1, 5);
    let mut r1 = r0.clone();

    assert_eq!(r1.read_1().unwrap(), 2, "{r1:#?}");
    assert_eq!(r1.read_1().unwrap(), 3);
    assert_eq!(r1.read_1().unwrap(), 4);

    let mut d2 = [0u8; 2];
    r1.read_exact(&mut d2).unwrap();
    assert_eq!(&d2, &[5, 2]);
    r1.read_exact(&mut d2).unwrap();
    assert_eq!(&d2, &[3, 4]);
    r1.read_exact(&mut d2).unwrap();
    assert_eq!(&d2, &[5, 2]);

    let mut d4 = [0u8; 4];
    r1.read_exact(&mut d4).unwrap();
    assert_eq!(&d4, &[3, 4, 5, 2]);

    let mut d6 = [0u8; 6];
    r1.read(&mut d6).unwrap();
    assert_eq!(&d6, &[3, 4, 5, 2, 3, 0]);
}

#[test]
fn test_from_end() {
    let storage = [1u8, 2, 3, 4, 5];
    let buf = &storage;
    let mut r0 = RingReader::buf_at(buf, 0, 5);

    assert_eq!(r0.read_1().unwrap(), 1);

    let mut r0 = RingReader::buf_at(buf, 1, 5);
    assert_eq!(r0.pos_to_offset(5), 1);
    assert_eq!(r0.read_1().unwrap(), 2);
}

#[test]
fn test_ring_writer() {
    let storage = vec![0u8; 10];

    let mut w0 = RingWriter::new(storage);
    assert_eq!(w0.write(&[1, 2, 3]).unwrap(), 3);
    assert_eq!(w0.pos(), 3);
    assert_eq!(&w0.buf()[..3], &[1, 2, 3]);

    w0.seek(SeekFrom::Start(0)).unwrap();
    assert_eq!(w0.write(&[4, 5]).unwrap(), 2);
    assert_eq!(w0.pos(), 2);
    assert_eq!(&w0.buf()[..5], &[4, 5, 3, 0, 0]);

    w0.seek(SeekFrom::Start(5)).unwrap();
    assert_eq!(w0.write(&[5, 6, 7, 8, 9]).unwrap(), 5);
    assert_eq!(w0.pos(), 10);
    assert_eq!(w0.buf(), &[4, 5, 3, 0, 0, 5, 6, 7, 8, 9]);

    assert_eq!(w0.write(&[4, 5]).unwrap(), 2);
    assert_eq!(w0.pos(), 12);
    assert_eq!(&w0.buf()[..5], &[4, 5, 3, 0, 0]);

    w0.seek(SeekFrom::Start(6)).unwrap();
    assert_eq!(w0.write(&[6, 7, 8, 9, 10]).unwrap(), 5);
    assert_eq!(w0.pos(), 11);
    assert_eq!(w0.buf(), &[10, 5, 3, 0, 0, 5, 6, 7, 8, 9]);

    w0.seek(SeekFrom::Start(2)).unwrap();
    assert_eq!(w0.write(&[9]).unwrap(), 1);
    assert_eq!(w0.pos(), 3);
    assert_eq!(w0.buf(), &[10, 5, 9, 0, 0, 5, 6, 7, 8, 9]);

    w0.seek(SeekFrom::Start(10)).unwrap();
    w0.seek(SeekFrom::Current(1)).unwrap();
    assert_eq!(w0.pos(), 11);
    w0.seek(SeekFrom::Current(-2)).unwrap();
    assert_eq!(w0.pos(), 9);
    w0.seek(SeekFrom::End(1)).unwrap();
    assert_eq!(w0.pos(), 8);
    w0.seek(SeekFrom::End(-1)).unwrap();
    assert_eq!(w0.pos(), 9);
}

#[test]
fn ring_copy_across_wrap_equals_reduced_position() {
    let storage = [9u8, 9, 1, 2, 3, 4, 5];
    let r = RingReader::buf_at(&storage, 2, 6);
    let mut a = [0u8; 4];
    assert_eq!(r.block(&mut a), 4);
    assert_eq!(a, [5, 1, 2, 3]);
    let r2 = RingReader::buf_at(&storage, 2, 2 + (6 - 2) % 5);
    let mut b = [0u8; 4];
    r2.block(&mut b);
    assert_eq!(a, b);
    let mut first = [0u8; 2];
    let mut second = [0u8; 2];
    r.block(&mut first);
    r.advanced(2).block(&mut second);
    assert_eq!([first[0], first[1], second[0], second[1]], a);
}

#[test]
fn ring_crc_equals_flat_crc() {
    let storage = [0u8, 10, 20, 30, 40, 50, 60, 70];
    let r = RingReader::buf_at(&storage, 1, 6);
    let mut flat = [0u8; 5];
    r.block(&mut flat);
    assert_eq!(flat, [60, 70, 10, 20, 30]);
    assert_eq!(r.crc32c(5).unwrap(), crc32c::crc32c(&flat));
    assert_ne!(r.crc32c(5).unwrap(), crc32c::crc32c(&storage[..5]));
    assert_eq!(r.crc32c(9), Err(mdbutil::error::Error::ShortRead));
}

#[test]
fn ring_zero_and_bounds() {
    let storage = [0u8, 0, 7, 0];
    let r = RingReader::buf_at(&storage, 0, 3);
    assert!(r.zero(3));
    assert!(!r.zero(4));
    assert_eq!(r.ensure(5), Err(mdbutil::error::Error::ShortRead));
    let far = RingReader::buf_at(&storage, 0, usize::MAX);
    assert_eq!(far.peek_1(), Err(mdbutil::error::Error::PosOverflow));
}

#[test]
fn positions_that_overflow_are_refused() {
    let mut w = RingWriter::buf_at(vec![0u8; 8], 0, usize::MAX - 1);
    assert_eq!(w.write(&[1, 2, 3]), Err(mdbutil::error::Error::PosOverflow));
    assert_eq!(w.buf(), &[0u8; 8]);
    assert_eq!(w.advance(2), Err(mdbutil::error::Error::PosOverflow));
    assert_eq!(w.advance(1), Ok(()));
    assert_eq!(w.pos(), usize::MAX);
    let storage = [1u8, 2, 3];
    let mut r = RingReader::buf_at(&storage, 0, usize::MAX - 1);
    let mut out = [0u8; 2];
    assert_eq!(r.read(&mut out), Err(mdbutil::error::Error::PosOverflow));
    let mut r = RingReader::buf_at(&storage, 0, 1);
    assert_eq!(r.read(&mut out), Ok(2));
    assert_eq!(out, [2, 3]);
}
