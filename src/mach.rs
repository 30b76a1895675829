//! Big-endian fixed-width integers, the byte order of every on-disk field.
use vstd::prelude::*;

use crate::error::Error;

verus! {

/// The 16-bit big-endian integer held by the first two bytes of `s`.
pub open spec fn be_u16(s: Seq<u8>) -> u16 {
    ((s[0] as u16) << 8u16) | (s[1] as u16)
}

/// The 32-bit big-endian integer held by the first four bytes of `s`.
pub open spec fn be_u32(s: Seq<u8>) -> u32 {
    ((s[0] as u32) << 24u32) | ((s[1] as u32) << 16u32) | ((s[2] as u32) << 8u32) | (s[3] as u32)
}

/// The 64-bit big-endian integer held by the first eight bytes of `s`.
pub open spec fn be_u64(s: Seq<u8>) -> u64 {
    ((be_u32(s) as u64) << 32u64) | (be_u32(s.subrange(4, 8)) as u64)
}

/// The two bytes of `v`, most significant first.
pub open spec fn u16_be(v: u16) -> Seq<u8> {
    seq![(v >> 8u16) as u8, v as u8]
}

/// The four bytes of `v`, most significant first.
pub open spec fn u32_be(v: u32) -> Seq<u8> {
    seq![(v >> 24u32) as u8, (v >> 16u32) as u8, (v >> 8u32) as u8, v as u8]
}

/// The eight bytes of `v`, most significant first.
pub open spec fn u64_be(v: u64) -> Seq<u8> {
    u32_be((v >> 32u64) as u32) + u32_be(v as u32)
}

/// The bytes at `[off, off + n)` of `s`.
pub open spec fn field(s: Seq<u8>, off: int, n: int) -> Seq<u8> {
    s.subrange(off, off + n)
}

/// `s` with the bytes of `w` written over it from `off` on.
pub open spec fn overwrite(s: Seq<u8>, off: int, w: Seq<u8>) -> Seq<u8> {
    s.subrange(0, off) + w + s.subrange(off + w.len(), s.len() as int)
}

pub proof fn lemma_u32_round_trip(v: u32)
    ensures
        be_u32(u32_be(v)) == v,
{
    assert((((((v >> 24u32) as u8) as u32) << 24u32) | ((((v >> 16u32) as u8) as u32) << 16u32)
        | ((((v >> 8u32) as u8) as u32) << 8u32) | ((v as u8) as u32)) == v) by (bit_vector);
}

pub proof fn lemma_u64_round_trip(v: u64)
    ensures
        be_u64(u64_be(v)) == v,
{
    let hi = (v >> 32u64) as u32;
    let lo = v as u32;
    lemma_u32_round_trip(hi);
    lemma_u32_round_trip(lo);
    let s = u64_be(v);
    assert(s.subrange(0, 4) =~= u32_be(hi));
    assert(s.subrange(4, 8) =~= u32_be(lo));
    assert(be_u32(s) == be_u32(s.subrange(0, 4)));
    assert(((((v >> 32u64) as u32) as u64) << 32u64) | ((v as u32) as u64) == v) by (bit_vector);
}

/// Reads the 16-bit big-endian integer at `off`.
pub fn read_u16_at(buf: &[u8], off: usize) -> (r: u16)
    requires
        off + 2 <= buf@.len(),
    ensures
        r == be_u16(field(buf@, off as int, 2)),
{
    ((buf[off] as u16) << 8u16) | (buf[off + 1] as u16)
}

/// Reads the 32-bit big-endian integer at `off`.
pub fn read_u32_at(buf: &[u8], off: usize) -> (r: u32)
    requires
        off + 4 <= buf@.len(),
    ensures
        r == be_u32(field(buf@, off as int, 4)),
{
    ((buf[off] as u32) << 24u32) | ((buf[off + 1] as u32) << 16u32) | ((buf[off + 2] as u32)
        << 8u32) | (buf[off + 3] as u32)
}

/// Reads the 64-bit big-endian integer at `off`.
pub fn read_u64_at(buf: &[u8], off: usize) -> (r: u64)
    requires
        off + 8 <= buf@.len(),
    ensures
        r == be_u64(field(buf@, off as int, 8)),
{
    let _n = buf.len();
    let hi = read_u32_at(buf, off);
    let lo = read_u32_at(buf, off + 4);
    assert(field(buf@, off as int, 8).subrange(4, 8) =~= field(buf@, off + 4, 4));
    assert(field(buf@, off as int, 8).subrange(0, 4) =~= field(buf@, off as int, 4));
    ((hi as u64) << 32u64) | (lo as u64)
}

/// Writes `v` big-endian at `off`.
pub fn write_u16_at(buf: &mut [u8], off: usize, v: u16)
    requires
        off + 2 <= old(buf)@.len(),
    ensures
        final(buf)@ == overwrite(old(buf)@, off as int, u16_be(v)),
{
    buf[off] = (v >> 8u16) as u8;
    buf[off + 1] = v as u8;
    assert(final(buf)@ =~= overwrite(old(buf)@, off as int, u16_be(v)));
}

/// Writes `v` big-endian at `off`.
pub fn write_u32_at(buf: &mut [u8], off: usize, v: u32)
    requires
        off + 4 <= old(buf)@.len(),
    ensures
        final(buf)@ == overwrite(old(buf)@, off as int, u32_be(v)),
{
    buf[off] = (v >> 24u32) as u8;
    buf[off + 1] = (v >> 16u32) as u8;
    buf[off + 2] = (v >> 8u32) as u8;
    buf[off + 3] = v as u8;
    assert(final(buf)@ =~= overwrite(old(buf)@, off as int, u32_be(v)));
}

/// Writes `v` big-endian at `off`.
pub fn write_u64_at(buf: &mut [u8], off: usize, v: u64)
    requires
        off + 8 <= old(buf)@.len(),
    ensures
        final(buf)@ == overwrite(old(buf)@, off as int, u64_be(v)),
{
    let ghost s0 = buf@;
    let _n = buf.len();
    write_u32_at(buf, off, #[verifier::truncate] ((v >> 32u64) as u32));
    write_u32_at(buf, off + 4, #[verifier::truncate] (v as u32));
    assert(buf@ =~= overwrite(s0, off as int, u64_be(v)));
}

/// The 16-bit integer at the start of `buf`.
pub fn mach_read_from_2(buf: &[u8]) -> (r: Result<u16, Error>)
    ensures
        buf@.len() < 2 ==> r == Err::<u16, Error>(Error::ShortRead),
        buf@.len() >= 2 ==> r == Ok::<u16, Error>(be_u16(buf@)),
{
    if buf.len() < 2 {
        return Err(Error::ShortRead);
    }
    Ok(read_u16_at(buf, 0))
}

/// The 32-bit integer at the start of `buf`.
pub fn mach_read_from_4(buf: &[u8]) -> (r: Result<u32, Error>)
    ensures
        buf@.len() < 4 ==> r == Err::<u32, Error>(Error::ShortRead),
        buf@.len() >= 4 ==> r == Ok::<u32, Error>(be_u32(buf@)),
{
    if buf.len() < 4 {
        return Err(Error::ShortRead);
    }
    Ok(read_u32_at(buf, 0))
}

/// The 64-bit integer at the start of `buf`.
pub fn mach_read_from_8(buf: &[u8]) -> (r: Result<u64, Error>)
    ensures
        buf@.len() < 8 ==> r == Err::<u64, Error>(Error::ShortRead),
        buf@.len() >= 8 ==> r == Ok::<u64, Error>(be_u64(buf@)),
{
    if buf.len() < 8 {
        return Err(Error::ShortRead);
    }
    let r = read_u64_at(buf, 0);
    assert(field(buf@, 0, 8).subrange(4, 8) =~= buf@.subrange(4, 8));
    Ok(r)
}

/// Writes `value` into the first 2 bytes of `buf`.
pub fn mach_write_to_2(buf: &mut [u8], value: u16) -> (r: Result<(), Error>)
    ensures
        old(buf)@.len() < 2 ==> r == Err::<(), Error>(Error::ShortRead) && final(buf)@ == old(buf)@,
        old(buf)@.len() >= 2 ==> r == Ok::<(), Error>(()) && final(buf)@ == overwrite(
            old(buf)@,
            0,
            u16_be(value),
        ),
{
    if buf.len() < 2 {
        return Err(Error::ShortRead);
    }
    write_u16_at(buf, 0, value);
    Ok(())
}

/// Writes `value` into the first 4 bytes of `buf`.
pub fn mach_write_to_4(buf: &mut [u8], value: u32) -> (r: Result<(), Error>)
    ensures
        old(buf)@.len() < 4 ==> r == Err::<(), Error>(Error::ShortRead) && final(buf)@ == old(buf)@,
        old(buf)@.len() >= 4 ==> r == Ok::<(), Error>(()) && final(buf)@ == overwrite(
            old(buf)@,
            0,
            u32_be(value),
        ),
{
    if buf.len() < 4 {
        return Err(Error::ShortRead);
    }
    write_u32_at(buf, 0, value);
    Ok(())
}

/// Writes `value` into the first 8 bytes of `buf`.
pub fn mach_write_to_8(buf: &mut [u8], value: u64) -> (r: Result<(), Error>)
    ensures
        old(buf)@.len() < 8 ==> r == Err::<(), Error>(Error::ShortRead) && final(buf)@ == old(buf)@,
        old(buf)@.len() >= 8 ==> r == Ok::<(), Error>(()) && final(buf)@ == overwrite(
            old(buf)@,
            0,
            u64_be(value),
        ),
{
    if buf.len() < 8 {
        return Err(Error::ShortRead);
    }
    write_u64_at(buf, 0, value);
    Ok(())
}

} // verus!
