//! Mini-transaction (MTR) chains: `payload ‖ marker ‖ CRC-32C(payload)` in the
//! ring body of the redo log.
use vstd::prelude::*;

use crate::crc::{crc32c, crc32c_of};
use crate::error::Error;
use crate::mach::{be_u32, be_u64, u32_be, u64_be, write_u32_at, write_u64_at};
use crate::mtr0log::{mlog_decode_varint, mlog_decode_varint_length, varint_decoding, varint_size};
use crate::mtr0types::{op_of_code, MtrOperation};
use crate::ring::{RingReader, RingState};
use crate::Lsn;

verus! {

/// MTR termination marker: 0x0 and 0x1 are termination markers.
pub const MTR_END_MARKER: u8 = 1;

/// Maximum guaranteed size of a mini-transaction.
pub const MTR_SIZE_MAX: u32 = 0x10_0000;

/// Space id of the transaction system page (the system tablespace).
pub const TRX_SYS_SPACE: u32 = 0;

/// A parsed chain.
#[derive(Debug, Clone, PartialEq, Eq)]
pub struct MtrChain {
    pub lsn: Lsn,
    /// total chain length including the termination marker and checksum.
    pub len: u32,
    pub checksum: u32,
    pub mtr: Vec<Mtr>,
}

/// A record of a chain.
#[derive(Debug, Clone, Copy, PartialEq, Eq, Structural)]
pub struct Mtr {
    /// tablespace id
    pub space_id: u32,
    pub page_no: u32,
    pub op: MtrOperation,
    /// FILE_CHECKPOINT LSN, if any.
    pub file_checkpoint_lsn: Option<Lsn>,
    /// termination marker of the chain
    pub marker: u8,
}

/// The generation bit of an LSN: 1 on even passes over the ring, 0 on odd
/// ones; the expected terminator of a chain that ends there.
pub open spec fn sequence_bit(header: int, capacity: int, lsn: int) -> u8 {
    if ((lsn - header) / capacity) % 2 == 0 {
        1
    } else {
        0
    }
}

/// Determine the sequence bit at a log sequence number.
/// Capacity is the capacity of the ring buffer in bytes (file size - header).
pub fn get_sequence_bit(header_size: u64, capacity: u64, lsn: Lsn) -> (r: u8)
    requires
        lsn >= header_size,
        capacity > 0,
    ensures
        r == sequence_bit(header_size as int, capacity as int, lsn as int),
{
    let q = (lsn - header_size) / capacity;
    assert((q & 1u64) == q % 2) by (bit_vector);
    if q & 1 == 0 {
        1
    } else {
        0
    }
}

/// One full pass over the ring flips the generation bit.
pub proof fn lemma_sequence_bit_flips(header: int, capacity: int, lsn: int)
    requires
        capacity > 0,
        lsn >= header,
    ensures
        sequence_bit(header, capacity, lsn + capacity) == 1 - sequence_bit(header, capacity, lsn),
{
    let q = (lsn - header) / capacity;
    let r = (lsn - header) % capacity;
    vstd::arithmetic::div_mod::lemma_fundamental_div_mod(lsn - header, capacity);
    vstd::arithmetic::div_mod::lemma_mod_pos_bound(lsn - header, capacity);
    assert(lsn + capacity - header == (q + 1) * capacity + r) by (nonlinear_arith)
        requires
            lsn - header == capacity * q + r,
    ;
    vstd::arithmetic::div_mod::lemma_fundamental_div_mod_converse(
        lsn + capacity - header,
        capacity,
        q + 1,
        r,
    );
}

/// The integer encoded at position `p` of the ring and the number of its
/// bytes.
pub open spec fn ring_varint(s: RingState, p: int) -> Result<(u32, int), Error> {
    if p + 1 > usize::MAX {
        Err(Error::PosOverflow)
    } else if s.byte(p) > 0xf0 {
        Err(Error::MalformedVarint)
    } else if p + varint_size(s.byte(p)) > usize::MAX {
        Err(Error::PosOverflow)
    } else {
        match varint_decoding(s.range(p, varint_size(s.byte(p)) as int)) {
            Ok(v) => Ok((v, varint_size(s.byte(p)) as int)),
            Err(e) => Err(e),
        }
    }
}

/// Reads the integer at the reader's position and moves past it.
fn read_varint(r: &mut RingReader) -> (res: Result<(u32, u8), Error>)
    requires
        old(r)@.wf(),
    ensures
        final(r)@.data == old(r)@.data,
        final(r)@.header == old(r)@.header,
        match ring_varint(old(r)@, old(r)@.pos as int) {
            Ok((v, n)) => res == Ok::<(u32, u8), Error>((v, n as u8)) && final(r)@.pos == old(
                r,
            )@.pos + n,
            Err(e) => res == Err::<(u32, u8), Error>(e),
        },
{
    let b0 = r.peek_1()?;
    if b0 > 0xf0 {
        return Err(Error::MalformedVarint);
    }
    let n = mlog_decode_varint_length(b0);
    let mut b = vec![0u8; n as usize];
    r.read_exact(b.as_mut_slice())?;
    let v = mlog_decode_varint(b.as_slice())?;
    Ok((v, n))
}

/// The walk over the records of a chain from position `p`, with `payload`
/// bytes of record bodies behind it: the position of the termination marker
/// and the payload length, or why there is none.
pub open spec fn scan_end(s: RingState, p: int, payload: int) -> Result<(int, int), Error>
    decreases (if payload >= MTR_SIZE_MAX {
        0
    } else {
        MTR_SIZE_MAX - payload
    }),
{
    if payload >= MTR_SIZE_MAX {
        Err(Error::ChainOverrun)
    } else if p + 1 > usize::MAX {
        Err(Error::PosOverflow)
    } else if s.byte(p) <= MTR_END_MARKER {
        Ok((p, payload))
    } else {
        let low = (s.byte(p) & 0xf) as int;
        if low == 0 && ring_varint(s, p + 1) is Err {
            Err(ring_varint(s, p + 1)->Err_0)
        } else {
            let rl = if low == 0 {
                ring_varint(s, p + 1)->Ok_0.0 + 15
            } else {
                low
            };
            if p + 1 + rl > usize::MAX {
                Err(Error::PosOverflow)
            } else {
                scan_end(s, p + 1 + rl, payload + rl)
            }
        }
    }
}

pub proof fn lemma_scan_bound(s: RingState, p: int, payload: int)
    requires
        scan_end(s, p, payload) is Ok,
    ensures
        payload <= scan_end(s, p, payload)->Ok_0.1 < MTR_SIZE_MAX,
        p <= scan_end(s, p, payload)->Ok_0.0,
        scan_end(s, p, payload)->Ok_0.0 + 1 <= usize::MAX,
        s.byte(scan_end(s, p, payload)->Ok_0.0) <= MTR_END_MARKER,
        scan_end(s, p, payload)->Ok_0.0 - p <= 2 * (scan_end(s, p, payload)->Ok_0.1 - payload),
    decreases (if payload >= MTR_SIZE_MAX {
        0
    } else {
        MTR_SIZE_MAX - payload
    }),
{
    if payload < MTR_SIZE_MAX && p + 1 <= usize::MAX && s.byte(p) > MTR_END_MARKER {
        let low = (s.byte(p) & 0xf) as int;
        let rl = if low == 0 {
            ring_varint(s, p + 1)->Ok_0.0 + 15
        } else {
            low
        };
        lemma_scan_bound(s, p + 1 + rl, payload + rl);
    }
}

/// What one record adds to the chain, where the next one begins, and the page
/// that a following same-page record refers to.
pub struct RecordStep {
    pub emit: Option<Mtr>,
    pub next: int,
    pub page_op: bool,
    pub space_id: u32,
    pub page_no: u32,
}

#[verifier::opaque]
/// The record that a record with first byte `b`, whose body starts at `body`
/// and ends before `next`, stands for (none for reserved or unknown
/// operations and malformed records).
pub open spec fn record_emit(
    s: RingState,
    b: u8,
    body: int,
    next: int,
    page_op: bool,
    space_id: u32,
    page_no: u32,
    marker: u8,
) -> Option<Mtr> {
    let rem = next - body;
    if page_op {
        if b & 0x70 == 0x60 {
            None
        } else {
            match op_of_code(b & 0x70) {
                Some(op) => Some(
                    Mtr { space_id, page_no, op, file_checkpoint_lsn: None, marker },
                ),
                None => None,
            }
        }
    } else if rem > 0 {
        if b & 0xf0 == 0xf0 {
            if rem < 8 {
                None
            } else {
                Some(
                    Mtr {
                        space_id,
                        page_no,
                        op: MtrOperation::FileCheckpoint,
                        file_checkpoint_lsn: Some(be_u64(s.range(body, 8))),
                        marker,
                    },
                )
            }
        } else if 0x80 <= b & 0xf0 <= 0xb0 {
            match op_of_code(b & 0xf0) {
                Some(op) => Some(
                    Mtr { space_id, page_no, op, file_checkpoint_lsn: None, marker },
                ),
                None => None,
            }
        } else {
            None
        }
    } else if b == 0xf2 && space_id == 0 && page_no == 0 {
        Some(
            Mtr {
                space_id,
                page_no,
                op: MtrOperation::FileCheckpoint,
                file_checkpoint_lsn: None,
                marker,
            },
        )
    } else {
        None
    }
}

/// The length of the record at `l` after its first byte (with any length
/// bytes), and where what follows the length bytes starts.
pub open spec fn record_len(s: RingState, l: int) -> Result<(int, int), Error> {
    let low = (s.byte(l) & 0xf) as int;
    if low == 0 {
        match ring_varint(s, l + 1) {
            Ok((v, n)) => Ok((v + 15, l + 1 + n)),
            Err(e) => Err(e),
        }
    } else {
        Ok((low, l + 1))
    }
}

/// The tablespace id and page number encoded at `cur`, and where they end.
pub open spec fn record_ids(s: RingState, cur: int) -> Result<(u32, u32, int), Error> {
    match ring_varint(s, cur) {
        Err(e) => Err(e),
        Ok((sp, n1)) => match ring_varint(s, cur + n1) {
            Err(e) => Err(e),
            Ok((pg, n2)) => Ok((sp, pg, cur + n1 + n2)),
        },
    }
}

/// The record at position `l` of a chain whose marker is at `t`: `None` where
/// the walk stops there.
pub open spec fn record_step(
    s: RingState,
    l: int,
    t: int,
    page_op: bool,
    space_id: u32,
    page_no: u32,
    marker: u8,
) -> Result<Option<RecordStep>, Error> {
    let b = s.byte(l);
    if b <= MTR_END_MARKER {
        Ok(None)
    } else {
        match record_len(s, l) {
            Err(e) => Err(e),
            Ok((total, cur)) => {
                let next = l + 1 + total;
                let same = b & 0x80 != 0 && page_op;
                if next > t {
                    Ok(None)
                } else if same && b & 0x70 <= 0x10 {
                    Ok(Some(RecordStep { emit: None, next, page_op, space_id, page_no }))
                } else if same {
                    Ok(
                        Some(
                            RecordStep {
                                emit: record_emit(
                                    s,
                                    b,
                                    cur,
                                    next,
                                    page_op,
                                    space_id,
                                    page_no,
                                    marker,
                                ),
                                next,
                                page_op,
                                space_id,
                                page_no,
                            },
                        ),
                    )
                } else {
                    match record_ids(s, cur) {
                        Err(e) => Err(e),
                        Ok((sp, pg, body)) => if body > next {
                            Ok(None)
                        } else {
                            Ok(
                                Some(
                                    RecordStep {
                                        emit: record_emit(
                                            s,
                                            b,
                                            body,
                                            next,
                                            b & 0x80 == 0,
                                            sp,
                                            pg,
                                            marker,
                                        ),
                                        next,
                                        page_op: b & 0x80 == 0,
                                        space_id: sp,
                                        page_no: pg,
                                    },
                                ),
                            )
                        },
                    }
                }
            },
        }
    }
}

/// The records of a chain from position `l` up to its marker at `t`.
pub open spec fn decode_records(
    s: RingState,
    l: int,
    t: int,
    page_op: bool,
    space_id: u32,
    page_no: u32,
    marker: u8,
) -> Result<Seq<Mtr>, Error>
    decreases t - l,
{
    if l >= t {
        Ok(seq![])
    } else {
        match record_step(s, l, t, page_op, space_id, page_no, marker) {
            Err(e) => Err(e),
            Ok(None) => Ok(seq![]),
            Ok(Some(st)) => if st.next <= l {
                Ok(seq![])
            } else {
                match decode_records(s, st.next, t, st.page_op, st.space_id, st.page_no, marker) {
                    Err(e) => Err(e),
                    Ok(rest) => Ok(
                        match st.emit {
                            Some(m) => seq![m] + rest,
                            None => rest,
                        },
                    ),
                }
            },
        }
    }
}

/// `acc` put before the records of `r`.
pub open spec fn prepend(acc: Seq<Mtr>, r: Result<Seq<Mtr>, Error>) -> Result<Seq<Mtr>, Error> {
    match r {
        Ok(v) => Ok(acc + v),
        Err(e) => Err(e),
    }
}

/// A parsed chain, in spec terms.
pub struct ChainSpec {
    pub lsn: int,
    pub len: int,
    pub checksum: u32,
    pub mtr: Seq<Mtr>,
    /// where the next chain starts
    pub next: int,
}

/// The chain at the current position of a ring, or why there is none.
pub open spec fn chain_parse(s: RingState) -> Result<ChainSpec, Error> {
    let p = s.pos as int;
    if p + 1 > usize::MAX {
        Err(Error::PosOverflow)
    } else if s.byte(p) <= MTR_END_MARKER {
        Err(Error::EndOfStream)
    } else {
        match scan_end(s, p, 0) {
            Err(e) => Err(e),
            Ok((t, _)) => {
                let marker = s.byte(t);
                let crc = crc32c_of(s.range(p, t - p));
                if t < s.header || marker != sequence_bit(s.header as int, s.capacity(), t) {
                    Err(Error::EndOfStream)
                } else if t - p > s.data.len() || s.data.len() < 4 {
                    Err(Error::ShortRead)
                } else if t + 5 > usize::MAX {
                    Err(Error::PosOverflow)
                } else if be_u32(s.range(t + 1, 4)) != crc {
                    Err(Error::ChainChecksum)
                } else {
                    match decode_records(s, p, t, false, 0, 0, marker) {
                        Err(e) => Err(e),
                        Ok(recs) => Ok(
                            ChainSpec { lsn: p, len: t - p + 5, checksum: crc, mtr: recs, next: t + 5 },
                        ),
                    }
                }
            },
        }
    }
}

/// Decodes the record at position `l` of the chain whose marker is at `t`.
#[verifier::rlimit(60)]
fn decode_record(
    start: &RingReader,
    l: usize,
    t: usize,
    page_op: bool,
    space_id: u32,
    page_no: u32,
    marker: u8,
) -> (res: Result<Option<(Option<Mtr>, usize, bool, u32, u32)>, Error>)
    requires
        start@.wf(),
        l < t,
        t + 5 <= usize::MAX,
    ensures
        match record_step(start@, l as int, t as int, page_op, space_id, page_no, marker) {
            Err(e) => res == Err::<Option<(Option<Mtr>, usize, bool, u32, u32)>, Error>(e),
            Ok(None) => res == Ok::<Option<(Option<Mtr>, usize, bool, u32, u32)>, Error>(None),
            Ok(Some(st)) => res is Ok && res->Ok_0 is Some && res->Ok_0->Some_0.0 == st.emit
                && res->Ok_0->Some_0.1 == st.next && res->Ok_0->Some_0.2 == st.page_op
                && res->Ok_0->Some_0.3 == st.space_id && res->Ok_0->Some_0.4 == st.page_no,
        },
{
    let ghost s = start@;
    let mut c = start.at_pos(l);
    assert(c.ensure_spec(1) is Ok);
    let b = c.read_1()?;
    assert(b == s.byte(l as int));
    if b <= MTR_END_MARKER {
        return Ok(None);
    }
    let total = read_len(&mut c, b);
    let total = total?;
    if total > (t - l - 1) as u64 {
        return Ok(None);
    }
    let next = l + 1 + total as usize;
    let same = b & 0x80 != 0 && page_op;
    if same && b & 0x70 <= 0x10 {
        return Ok(Some((None, next, page_op, space_id, page_no)));
    }
    if same {
        let emit = decode_emit(start, c.pos(), b, next, page_op, space_id, page_no, marker);
        return Ok(Some((emit, next, page_op, space_id, page_no)));
    }
    let ids = read_ids(&mut c);
    let (sp, pg) = ids?;
    if c.pos() > next {
        return Ok(None);
    }
    let emit = decode_emit(start, c.pos(), b, next, b & 0x80 == 0, sp, pg, marker);
    Ok(Some((emit, next, b & 0x80 == 0, sp, pg)))
}

/// Reads the length bytes of a record whose first byte `b` is behind the
/// reader; returns the length after the first byte.
fn read_len(c: &mut RingReader, b: u8) -> (res: Result<u64, Error>)
    requires
        old(c)@.wf(),
        old(c)@.pos >= 1,
        b == old(c)@.byte(old(c)@.pos - 1),
    ensures
        final(c)@.data == old(c)@.data,
        final(c)@.header == old(c)@.header,
        match record_len(old(c)@, old(c)@.pos - 1) {
            Err(e) => res == Err::<u64, Error>(e),
            Ok((total, cur)) => res == Ok::<u64, Error>(total as u64) && final(c)@.pos == cur,
        },
{
    let low = b & 0xf;
    if low == 0 {
        let (v, _n) = read_varint(c)?;
        Ok(v as u64 + 15)
    } else {
        Ok(low as u64)
    }
}

/// Reads the tablespace id and page number of a record.
fn read_ids(c: &mut RingReader) -> (res: Result<(u32, u32), Error>)
    requires
        old(c)@.wf(),
    ensures
        final(c)@.data == old(c)@.data,
        final(c)@.header == old(c)@.header,
        match record_ids(old(c)@, old(c)@.pos as int) {
            Err(e) => res == Err::<(u32, u32), Error>(e),
            Ok((sp, pg, body)) => res == Ok::<(u32, u32), Error>((sp, pg)) && final(c)@.pos == body,
        },
{
    let (sp, _n1) = read_varint(c)?;
    let (pg, _n2) = read_varint(c)?;
    Ok((sp, pg))
}

/// The record that a record body at the reader's position stands for.
fn decode_emit(
    start: &RingReader,
    body: usize,
    b: u8,
    next: usize,
    page_op: bool,
    space_id: u32,
    page_no: u32,
    marker: u8,
) -> (res: Option<Mtr>)
    requires
        start@.wf(),
        body <= next,
        next + 5 <= usize::MAX,
    ensures
        res == record_emit(start@, b, body as int, next as int, page_op, space_id, page_no, marker),
{
    reveal(record_emit);
    let c = start.at_pos(body);
    let rem = next - c.pos();
    if page_op {
        if b & 0x70 == 0x60 {
            None
        } else {
            match MtrOperation::from_code(b & 0x70) {
                Some(op) => Some(Mtr { space_id, page_no, op, file_checkpoint_lsn: None, marker }),
                None => None,
            }
        }
    } else if rem > 0 {
        if b & 0xf0 == 0xf0 {
            if rem < 8 {
                None
            } else {
                // The 8-byte checkpoint LSN lies before `next`, so it can be read.
                let mut cur = c;
                let mut raw = vec![0u8; 8];
                match cur.read_exact(raw.as_mut_slice()) {
                    Ok(()) => {
                        let lsn = crate::mach::read_u64_at(raw.as_slice(), 0);
                        assert(crate::mach::field(raw@, 0, 8) =~= raw@);
                        Some(
                            Mtr {
                                space_id,
                                page_no,
                                op: MtrOperation::FileCheckpoint,
                                file_checkpoint_lsn: Some(lsn),
                                marker,
                            },
                        )
                    },
                    Err(_) => None,
                }
            }
        } else if 0x80 <= b & 0xf0 && b & 0xf0 <= 0xb0 {
            match MtrOperation::from_code(b & 0xf0) {
                Some(op) => Some(Mtr { space_id, page_no, op, file_checkpoint_lsn: None, marker }),
                None => None,
            }
        } else {
            None
        }
    } else if b == 0xf2 && space_id == 0 && page_no == 0 {
        Some(
            Mtr {
                space_id,
                page_no,
                op: MtrOperation::FileCheckpoint,
                file_checkpoint_lsn: None,
                marker,
            },
        )
    } else {
        None
    }
}

/// Decodes the records of the chain from `p` up to its marker at `t`.
fn decode_chain(start: &RingReader, p: usize, t: usize, termination_byte: u8) -> (res: Result<
    Vec<Mtr>,
    Error,
>)
    requires
        start@.wf(),
        p <= t,
        t + 5 <= usize::MAX,
    ensures
        match decode_records(start@, p as int, t as int, false, 0, 0, termination_byte) {
            Err(e) => res == Err::<Vec<Mtr>, Error>(e),
            Ok(recs) => res is Ok && res->Ok_0@ == recs,
        },
{
    let ghost s = start@;
    let mut recs: Vec<Mtr> = Vec::new();
    assert(recs@ + decode_records(s, p as int, t as int, false, 0, 0, termination_byte)->Ok_0
        =~= decode_records(s, p as int, t as int, false, 0, 0, termination_byte)->Ok_0);
    let mut l = p;
    let mut page_op = false;
    let mut space_id: u32 = 0;
    let mut page_no: u32 = 0;
    while l < t
        invariant
            start@ == s,
            s.wf(),
            p <= l,
            t + 5 <= usize::MAX,
            decode_records(s, p as int, t as int, false, 0, 0, termination_byte) == prepend(
                recs@,
                decode_records(s, l as int, t as int, page_op, space_id, page_no, termination_byte),
            ),
        decreases t - l,
    {
        match decode_record(&start, l, t, page_op, space_id, page_no, termination_byte)? {
            None => {
                assert(recs@ + seq![] =~= recs@);
                l = t;
            },
            Some((emit, next, po, sp, pg)) => {
                if next <= l {
                    assert(recs@ + seq![] =~= recs@);
                    l = t;
                    continue ;
                }
                let ghost acc = recs@;
                let ghost rest = decode_records(
                    s,
                    next as int,
                    t as int,
                    po,
                    sp,
                    pg,
                    termination_byte,
                );
                if let Some(m) = emit {
                    recs.push(m);
                    proof {
                        if rest is Ok {
                            assert(acc + (seq![m] + rest->Ok_0) =~= recs@ + rest->Ok_0);
                        }
                    }
                }
                l = next;
                page_op = po;
                space_id = sp;
                page_no = pg;
            },
        }
    }
    assert(recs@ + seq![] =~= recs@);
    Ok(recs)
}

impl MtrChain {
    /// Parses the chain at the reader's position and moves past it.
    pub fn parse_next(r: &mut RingReader) -> (res: Result<Self, Error>)
        requires
            old(r)@.wf(),
        ensures
            final(r)@.data == old(r)@.data,
            final(r)@.header == old(r)@.header,
            match chain_parse(old(r)@) {
                Ok(c) => res is Ok && res->Ok_0.lsn == c.lsn && res->Ok_0.len == c.len
                    && res->Ok_0.checksum == c.checksum && res->Ok_0.mtr@ == c.mtr && final(r)@.pos
                    == c.next,
                Err(e) => res == Err::<MtrChain, Error>(e),
            },
    {
        let ghost s = r@;
        let peek = peek_not_end_marker(r);
        if peek.is_err() {
            assert(chain_parse(s) == Err::<ChainSpec, Error>(peek->Err_0));
            return Err(peek.unwrap_err());
        }
        let start = *r;
        let p = r.pos();
        Self::find_end_marker(r)?;
        let t = r.pos();
        proof {
            lemma_scan_bound(s, p as int, 0);
        }
        let termination_byte = r.peek_1()?;
        if t < r.header() || termination_byte != get_sequence_bit(
            r.header() as u64,
            r.capacity() as u64,
            t as u64,
        ) {
            return Err(Error::EndOfStream);
        }
        let real_crc = start.crc32c(t - p)?;
        r.advance(1);
        let expected_crc = r.read_4()?;
        if real_crc != expected_crc {
            return Err(Error::ChainChecksum);
        }
        let mut chain = MtrChain {
            lsn: p as Lsn,
            len: (t - p) as u32 + 5,
            checksum: real_crc,
            mtr: Vec::new(),
        };
        assert(chain_parse(s) == match decode_records(
            s,
            p as int,
            t as int,
            false,
            0,
            0,
            termination_byte,
        ) {
            Err(e) => Err(e),
            Ok(recs) => Ok(
                ChainSpec {
                    lsn: p as int,
                    len: t - p + 5,
                    checksum: real_crc,
                    mtr: recs,
                    next: t + 5,
                },
            ),
        });
        let recs = decode_chain(&start, p, t, termination_byte);
        chain.mtr = recs?;
        Ok(chain)
    }

    /// Looks through the chain and finds the end marker, where the chain is
    /// |MTR|MTR|...|^TERMINATION_MARKER|CHECKSUM|; returns the payload length.
    pub fn find_end_marker(r: &mut RingReader) -> (res: Result<u32, Error>)
        requires
            old(r)@.wf(),
        ensures
            final(r)@.data == old(r)@.data,
            final(r)@.header == old(r)@.header,
            match scan_end(old(r)@, old(r)@.pos as int, 0) {
                Ok((t, payload)) => res == Ok::<u32, Error>(payload as u32) && final(r)@.pos == t,
                Err(e) => res == Err::<u32, Error>(e),
            },
    {
        let ghost s = r@;
        let mut payload_len: u64 = 0;
        loop
            invariant
                s == old(r)@,
                s.wf(),
                r@.data == s.data,
                r@.header == s.header,
                payload_len <= MTR_SIZE_MAX + 0x1_0000_0010,
                scan_end(s, s.pos as int, 0) == scan_end(s, r@.pos as int, payload_len as int),
            decreases (if payload_len >= MTR_SIZE_MAX {
                0
            } else {
                MTR_SIZE_MAX - payload_len
            }),
        {
            if payload_len >= MTR_SIZE_MAX as u64 {
                return Err(Error::ChainOverrun);
            }
            let b = r.peek_1()?;
            assert(RingState { pos: r@.pos, ..s } == r@);
            if b <= MTR_END_MARKER {
                return Ok(payload_len as u32);
            }
            let low = r.read_1()? & 0xf;
            let rlen: u64 = if low == 0 {
                let mut c = *r;
                let (v, _n) = read_varint(&mut c)?;
                v as u64 + 15
            } else {
                low as u64
            };
            if rlen > usize::MAX as u64 {
                return Err(Error::PosOverflow);
            }
            payload_len = payload_len + rlen;
            if !r.advance(rlen as usize) {
                return Err(Error::PosOverflow);
            }
        }
    }

    pub fn len(&self) -> (r: u32)
        ensures
            r == self.len,
    {
        self.len
    }
}

/// The record part of a FILE_CHECKPOINT chain: the type byte with a body
/// length of 10, a zero tablespace id and page number, and the LSN.
pub open spec fn file_checkpoint_payload(lsn: u64) -> Seq<u8> {
    seq![0xfau8, 0u8, 0u8] + u64_be(lsn)
}

/// The 16 bytes of the FILE_CHECKPOINT chain for `lsn`.
pub open spec fn file_checkpoint_chain(header: int, capacity: int, lsn: u64) -> Seq<u8> {
    file_checkpoint_payload(lsn) + seq![sequence_bit(header, capacity, lsn + 11)] + u32_be(
        crc32c_of(file_checkpoint_payload(lsn)),
    )
}

impl Mtr {
    /// Appends to `buf` the FILE_CHECKPOINT chain for a log whose ring starts
    /// at `header` and holds `capacity` bytes, placed at `lsn`.
    pub fn build_file_checkpoint(buf: &mut Vec<u8>, header: u64, capacity: u64, lsn: Lsn) -> (r:
        Result<(), Error>)
        ensures
            lsn < header || lsn > u64::MAX - 16 || capacity == 0 ==> r == Err::<(), Error>(
                Error::InvalidInput,
            ) && final(buf)@ == old(buf)@,
            !(lsn < header || lsn > u64::MAX - 16 || capacity == 0) ==> r == Ok::<(), Error>(())
                && final(buf)@ == old(buf)@ + file_checkpoint_chain(
                header as int,
                capacity as int,
                lsn,
            ),
    {
        if lsn < header || lsn > u64::MAX - 16 || capacity == 0 {
            return Err(Error::InvalidInput);
        }
        let mut temp: Vec<u8> = vec![0u8; 16];
        temp.set(0, 0xfa);
        write_u64_at(temp.as_mut_slice(), 3, lsn);
        let marker = get_sequence_bit(header, capacity, lsn + 11);
        temp.set(11, marker);
        let checksum = crc32c(&temp.as_slice()[0..11]);
        assert(temp@.subrange(0, 11) =~= file_checkpoint_payload(lsn));
        write_u32_at(temp.as_mut_slice(), 12, checksum);
        assert(temp@ =~= file_checkpoint_chain(header as int, capacity as int, lsn));
        buf.append(&mut temp);
        Ok(())
    }
}

/// The chain that the FILE_CHECKPOINT builder emits parses back to one
/// FILE_CHECKPOINT record carrying the LSN, in a chain of 16 bytes.
pub proof fn lemma_file_checkpoint_round_trip(s: RingState, lsn: u64)
    requires
        s.wf(),
        s.capacity() >= 16,
        s.pos == lsn,
        lsn >= s.header,
        lsn <= u64::MAX - 16,
        lsn + 16 <= usize::MAX,
        s.range(lsn as int, 16) == file_checkpoint_chain(s.header as int, s.capacity(), lsn),
    ensures
        chain_parse(s) == Ok::<ChainSpec, Error>(
            ChainSpec {
                lsn: lsn as int,
                len: 16,
                checksum: crc32c_of(file_checkpoint_payload(lsn)),
                mtr: seq![
                    Mtr {
                        space_id: 0,
                        page_no: 0,
                        op: MtrOperation::FileCheckpoint,
                        file_checkpoint_lsn: Some(lsn),
                        marker: sequence_bit(s.header as int, s.capacity(), lsn + 11),
                    },
                ],
                next: lsn + 16,
            },
        ),
{
    let p = lsn as int;
    let t = p + 11;
    let h = s.header as int;
    let cap = s.capacity();
    let c = file_checkpoint_chain(h, cap, lsn);
    let payload = file_checkpoint_payload(lsn);
    let marker = sequence_bit(h, cap, lsn + 11);
    assert forall|i: int| 0 <= i < 16 implies #[trigger] s.byte(p + i) == c[i] by {
        assert(s.range(p, 16)[i] == s.byte(p + i));
    }
    assert(s.byte(p) == 0xfa) by {
        assert(s.byte(p + 0) == c[0]);
    }
    assert(s.byte(p + 1) == 0 && s.byte(p + 2) == 0);
    assert(s.byte(t) == marker);
    assert((0xfau8 & 0xfu8) == 10u8) by (bit_vector);
    assert((0xfau8 & 0x80u8) != 0u8) by (bit_vector);
    assert((0xfau8 & 0xf0u8) == 0xf0u8) by (bit_vector);
    assert(scan_end(s, t, 10) == Ok::<(int, int), Error>((t, 10)));
    assert(scan_end(s, p, 0) == Ok::<(int, int), Error>((t, 10)));
    assert(s.range(p, 11) =~= payload);
    assert(c.subrange(12, 16) =~= u32_be(crc32c_of(payload)));
    assert forall|i: int| 0 <= i < 4 implies s.range(t + 1, 4)[i] == c.subrange(12, 16)[i] by {
        assert(s.byte(p + (12 + i)) == c[12 + i]);
        assert(p + (12 + i) == t + 1 + i);
    }
    assert(s.range(t + 1, 4) =~= u32_be(crc32c_of(payload)));
    crate::mach::lemma_u32_round_trip(crc32c_of(payload));
    assert(s.range(p + 1, 1) =~= seq![0u8]);
    assert(s.range(p + 2, 1) =~= seq![0u8]);
    assert(ring_varint(s, p + 1) == Ok::<(u32, int), Error>((0, 1)));
    assert(ring_varint(s, p + 2) == Ok::<(u32, int), Error>((0, 1)));
    assert(record_ids(s, p + 1) == Ok::<(u32, u32, int), Error>((0, 0, p + 3)));
    assert(c.subrange(3, 11) =~= u64_be(lsn));
    assert forall|i: int| 0 <= i < 8 implies s.range(p + 3, 8)[i] == c.subrange(3, 11)[i] by {
        assert(s.byte(p + (3 + i)) == c[3 + i]);
        assert(p + (3 + i) == p + 3 + i);
    }
    assert(s.range(p + 3, 8) =~= u64_be(lsn));
    crate::mach::lemma_u64_round_trip(lsn);
    let m = Mtr {
        space_id: 0,
        page_no: 0,
        op: MtrOperation::FileCheckpoint,
        file_checkpoint_lsn: Some(lsn),
        marker,
    };
    assert(record_emit(s, 0xfa, p + 3, t, false, 0, 0, marker) == Some(m)) by {
        reveal(record_emit);
    }
    assert(record_step(s, p, t, false, 0, 0, marker) == Ok::<Option<RecordStep>, Error>(
        Some(RecordStep { emit: Some(m), next: t, page_op: false, space_id: 0, page_no: 0 }),
    ));
    assert(decode_records(s, t, t, false, 0, 0, marker) == Ok::<Seq<Mtr>, Error>(seq![]));
    assert(seq![m] + seq![] =~= seq![m]);
    assert(decode_records(s, p, t, false, 0, 0, marker) == Ok::<Seq<Mtr>, Error>(seq![m]));
}

/// Tests whether the reader points at a termination marker.
pub fn peek_not_end_marker(r: &RingReader) -> (res: Result<(), Error>)
    requires
        r@.wf(),
    ensures
        res == if r@.pos + 1 > usize::MAX {
            Err::<(), Error>(Error::PosOverflow)
        } else if r@.byte(r@.pos as int) <= MTR_END_MARKER {
            Err::<(), Error>(Error::EndOfStream)
        } else {
            Ok::<(), Error>(())
        },
{
    if r.peek_1()? <= MTR_END_MARKER {
        return Err(Error::EndOfStream);
    }
    Ok(())
}

} // verus!
