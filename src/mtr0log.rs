//! The 1 to 5 byte variable-length integers of redo log records.
use vstd::prelude::*;

use crate::error::Error;
use crate::mach::be_u32;

verus! {

/// The minimum 2-byte integer (0b10xxxxxx xxxxxxxx)
pub const MIN_2BYTE: u32 = 0x80;

/// The minimum 3-byte integer (0b110xxxxx xxxxxxxx xxxxxxxx)
pub const MIN_3BYTE: u32 = 0x4080;

/// The minimum 4-byte integer (0b1110xxxx xxxxxxxx xxxxxxxx xxxxxxxx)
pub const MIN_4BYTE: u32 = 0x20_4080;

/// Minimum 5-byte integer (0b11110000 xxxxxxxx xxxxxxxx xxxxxxxx xxxxxxxx)
pub const MIN_5BYTE: u32 = 0x1020_4080;

/// The one value that has no encoding.
pub const MLOG_DECODE_ERROR: u32 = 0xffff_ffff;

/// The number of bytes announced by the first byte of an encoded integer:
/// one more than the number of its leading one bits.
pub open spec fn varint_size(first: u8) -> nat {
    if first < 0x80 {
        1
    } else if first < 0xc0 {
        2
    } else if first < 0xe0 {
        3
    } else if first < 0xf0 {
        4
    } else if first < 0xf8 {
        5
    } else if first < 0xfc {
        6
    } else if first < 0xfe {
        7
    } else if first < 0xff {
        8
    } else {
        9
    }
}

/// The shortest encoding of `x`.
pub open spec fn varint_encoding(x: u32) -> Seq<u8> {
    if x < MIN_2BYTE {
        seq![x as u8]
    } else if x < MIN_3BYTE {
        let y = (x - MIN_2BYTE) as u32;
        seq![(0x80u32 | (y >> 8u32)) as u8, y as u8]
    } else if x < MIN_4BYTE {
        let y = (x - MIN_3BYTE) as u32;
        seq![(0xc0u32 | (y >> 16u32)) as u8, (y >> 8u32) as u8, y as u8]
    } else if x < MIN_5BYTE {
        let y = (x - MIN_4BYTE) as u32;
        seq![(0xe0u32 | (y >> 24u32)) as u8, (y >> 16u32) as u8, (y >> 8u32) as u8, y as u8]
    } else {
        let y = (x - MIN_5BYTE) as u32;
        seq![0xf0u8, (y >> 24u32) as u8, (y >> 16u32) as u8, (y >> 8u32) as u8, y as u8]
    }
}

/// The integer encoded at the start of `s`.
pub open spec fn varint_decoding(s: Seq<u8>) -> Result<u32, Error> {
    if s.len() < 1 {
        Err(Error::ShortRead)
    } else {
        let b0 = s[0] as u32;
        if b0 < 0x80 {
            Ok(b0)
        } else if b0 < 0xc0 {
            if s.len() < 2 {
                Err(Error::ShortRead)
            } else {
                Ok((MIN_2BYTE + (((b0 & 0x3f) << 8u32) | s[1] as u32)) as u32)
            }
        } else if b0 < 0xe0 {
            if s.len() < 3 {
                Err(Error::ShortRead)
            } else {
                Ok(
                    (MIN_3BYTE + (((b0 & 0x1f) << 16u32) | ((s[1] as u32) << 8u32)
                        | s[2] as u32)) as u32,
                )
            }
        } else if b0 < 0xf0 {
            if s.len() < 4 {
                Err(Error::ShortRead)
            } else {
                Ok(
                    (MIN_4BYTE + (((b0 & 0x0f) << 24u32) | ((s[1] as u32) << 16u32) | ((
                    s[2] as u32) << 8u32) | s[3] as u32)) as u32,
                )
            }
        } else if b0 == 0xf0 {
            if s.len() < 5 {
                Err(Error::ShortRead)
            } else if be_u32(s.subrange(1, 5)) <= 0xffff_ffff - MIN_5BYTE {
                Ok((MIN_5BYTE + be_u32(s.subrange(1, 5))) as u32)
            } else {
                Err(Error::MalformedVarint)
            }
        } else {
            Err(Error::MalformedVarint)
        }
    }
}

/// Decode the length of a variable-length encoded integer from its first byte.
pub fn mlog_decode_varint_length(byte: u8) -> (r: u8)
    ensures
        r as nat == varint_size(byte),
{
    if byte < 0x80 {
        1
    } else if byte < 0xc0 {
        2
    } else if byte < 0xe0 {
        3
    } else if byte < 0xf0 {
        4
    } else if byte < 0xf8 {
        5
    } else if byte < 0xfc {
        6
    } else if byte < 0xfe {
        7
    } else if byte < 0xff {
        8
    } else {
        9
    }
}

/// Decode an integer of a redo log record from the start of `buf`.
pub fn mlog_decode_varint(buf: &[u8]) -> (r: Result<u32, Error>)
    ensures
        r == varint_decoding(buf@),
{
    let n = buf.len();
    if n < 1 {
        return Err(Error::ShortRead);
    }
    let b0 = buf[0] as u32;
    if b0 < 0x80 {
        return Ok(b0);
    }
    if b0 < 0xc0 {
        if n < 2 {
            return Err(Error::ShortRead);
        }
        let b1 = buf[1] as u32;
        let v = ((b0 & 0x3f) << 8u32) | b1;
        assert(v < 0x4000) by (bit_vector)
            requires
                v == ((b0 & 0x3f) << 8u32) | b1,
                b1 < 0x100,
        ;
        return Ok(MIN_2BYTE + v);
    }
    if b0 < 0xe0 {
        if n < 3 {
            return Err(Error::ShortRead);
        }
        let b1 = buf[1] as u32;
        let b2 = buf[2] as u32;
        let v = ((b0 & 0x1f) << 16u32) | (b1 << 8u32) | b2;
        assert(v < 0x20_0000) by (bit_vector)
            requires
                v == ((b0 & 0x1f) << 16u32) | (b1 << 8u32) | b2,
                b1 < 0x100,
                b2 < 0x100,
        ;
        return Ok(MIN_3BYTE + v);
    }
    if b0 < 0xf0 {
        if n < 4 {
            return Err(Error::ShortRead);
        }
        let b1 = buf[1] as u32;
        let b2 = buf[2] as u32;
        let b3 = buf[3] as u32;
        let v = ((b0 & 0x0f) << 24u32) | (b1 << 16u32) | (b2 << 8u32) | b3;
        assert(v < 0x1000_0000) by (bit_vector)
            requires
                v == ((b0 & 0x0f) << 24u32) | (b1 << 16u32) | (b2 << 8u32) | b3,
                b1 < 0x100,
                b2 < 0x100,
                b3 < 0x100,
        ;
        return Ok(MIN_4BYTE + v);
    }
    if b0 == 0xf0 {
        if n < 5 {
            return Err(Error::ShortRead);
        }
        let v = crate::mach::read_u32_at(buf, 1);
        if v <= 0xffff_ffff - MIN_5BYTE {
            return Ok(MIN_5BYTE + v);
        }
    }
    Err(Error::MalformedVarint)
}

/// Append the encoding of `i` to `w`; every integer but `MLOG_DECODE_ERROR`
/// has one.
pub fn mlog_encode_varint(w: &mut Vec<u8>, i: u32) -> (r: Result<(), Error>)
    ensures
        i == MLOG_DECODE_ERROR ==> r == Err::<(), Error>(Error::InvalidInput) && final(w)@ == old(
            w,
        )@,
        i != MLOG_DECODE_ERROR ==> r == Ok::<(), Error>(()) && final(w)@ == old(w)@
            + varint_encoding(i),
{
    let ghost w0 = w@;
    if i == MLOG_DECODE_ERROR {
        return Err(Error::InvalidInput);
    }
    if i < MIN_2BYTE {
        w.push(i as u8);
    } else if i < MIN_3BYTE {
        let y = i - MIN_2BYTE;
        w.push((0x80u32 | (y >> 8u32)) as u8);
        w.push(y as u8);
    } else if i < MIN_4BYTE {
        let y = i - MIN_3BYTE;
        w.push((0xc0u32 | (y >> 16u32)) as u8);
        w.push((y >> 8u32) as u8);
        w.push(y as u8);
    } else if i < MIN_5BYTE {
        let y = i - MIN_4BYTE;
        w.push((0xe0u32 | (y >> 24u32)) as u8);
        w.push((y >> 16u32) as u8);
        w.push((y >> 8u32) as u8);
        w.push(y as u8);
    } else {
        let y = i - MIN_5BYTE;
        w.push(0xf0u8);
        w.push((y >> 24u32) as u8);
        w.push((y >> 16u32) as u8);
        w.push((y >> 8u32) as u8);
        w.push(y as u8);
    }
    assert(w@ =~= w0 + varint_encoding(i));
    Ok(())
}

/// Decoding the encoding of an integer gives the integer back, whatever
/// follows it; the encoding takes 1 to 5 bytes, as many as its first byte
/// announces.
pub proof fn lemma_varint_round_trip(x: u32, rest: Seq<u8>)
    requires
        x != MLOG_DECODE_ERROR,
    ensures
        varint_decoding(varint_encoding(x) + rest) == Ok::<u32, Error>(x),
        1 <= varint_encoding(x).len() <= 5,
        varint_encoding(x).len() == varint_size(varint_encoding(x)[0]),
{
    let e = varint_encoding(x);
    let s = e + rest;
    if x < MIN_2BYTE {
        assert(s[0] == x as u8);
        assert(((x as u8) as u32) == x) by (bit_vector)
            requires
                x < 0x80,
        ;
    } else if x < MIN_3BYTE {
        let y = (x - MIN_2BYTE) as u32;
        let b0 = (0x80u32 | (y >> 8u32)) as u8;
        let b1 = y as u8;
        assert(s[0] == b0 && s[1] == b1);
        assert(0x80 <= b0 < 0xc0 && ((((b0 as u32) & 0x3f) << 8u32) | (b1 as u32)) == y)
            by (bit_vector)
            requires
                y < 0x4000,
                b0 == (0x80u32 | (y >> 8u32)) as u8,
                b1 == y as u8,
        ;
    } else if x < MIN_4BYTE {
        let y = (x - MIN_3BYTE) as u32;
        let b0 = (0xc0u32 | (y >> 16u32)) as u8;
        let b1 = (y >> 8u32) as u8;
        let b2 = y as u8;
        assert(s[0] == b0 && s[1] == b1 && s[2] == b2);
        assert(0xc0 <= b0 < 0xe0 && ((((b0 as u32) & 0x1f) << 16u32) | ((b1 as u32) << 8u32) | (
        b2 as u32)) == y) by (bit_vector)
            requires
                y < 0x20_0000,
                b0 == (0xc0u32 | (y >> 16u32)) as u8,
                b1 == (y >> 8u32) as u8,
                b2 == y as u8,
        ;
    } else if x < MIN_5BYTE {
        let y = (x - MIN_4BYTE) as u32;
        let b0 = (0xe0u32 | (y >> 24u32)) as u8;
        let b1 = (y >> 16u32) as u8;
        let b2 = (y >> 8u32) as u8;
        let b3 = y as u8;
        assert(s[0] == b0 && s[1] == b1 && s[2] == b2 && s[3] == b3);
        assert(0xe0 <= b0 < 0xf0 && ((((b0 as u32) & 0x0f) << 24u32) | ((b1 as u32) << 16u32) | ((
        b2 as u32) << 8u32) | (b3 as u32)) == y) by (bit_vector)
            requires
                y < 0x1000_0000,
                b0 == (0xe0u32 | (y >> 24u32)) as u8,
                b1 == (y >> 16u32) as u8,
                b2 == (y >> 8u32) as u8,
                b3 == y as u8,
        ;
    } else {
        let y = (x - MIN_5BYTE) as u32;
        assert(s.subrange(1, 5) =~= crate::mach::u32_be(y));
        crate::mach::lemma_u32_round_trip(y);
    }
}

} // verus!
