//! A byte region made of a fixed header followed by a body that wraps modulo
//! its capacity, addressed by abstract 64-bit positions (LSNs).
use vstd::arithmetic::div_mod::{
    lemma_add_mod_noop, lemma_fundamental_div_mod_converse, lemma_mod_pos_bound, lemma_small_mod,
};
use vstd::prelude::*;

use crate::crc::{crc32c, crc32c_of};
use crate::error::Error;
use crate::mach::{be_u32, be_u64, field};

verus! {

/// The offset in the region of position `pos`: itself inside the header, else
/// wrapped into the body.
pub open spec fn ring_offset(header: int, capacity: int, pos: int) -> int {
    if pos < header {
        pos
    } else {
        header + (pos - header) % capacity
    }
}

/// A region, its header size, and a current position.
pub struct RingState {
    pub data: Seq<u8>,
    pub header: nat,
    pub pos: nat,
}

impl RingState {
    pub open spec fn capacity(self) -> int {
        self.data.len() - self.header
    }

    /// The body is not empty.
    pub open spec fn wf(self) -> bool {
        self.header < self.data.len()
    }

    pub open spec fn offset(self, p: int) -> int {
        ring_offset(self.header as int, self.capacity(), p)
    }

    /// The byte at position `p`.
    pub open spec fn byte(self, p: int) -> u8 {
        self.data[self.offset(p)]
    }

    /// How many of `n` bytes a single write takes: up to the end of the body
    /// and round to the write's own offset, or to the end of the region from
    /// the header.
    pub open spec fn write_count(self, n: int) -> int {
        let room = if self.pos >= self.header {
            self.capacity()
        } else {
            self.data.len() - self.offset(self.pos as int)
        };
        if n < room {
            n
        } else {
            room
        }
    }

    /// The `n` bytes from position `p` on, flattened across the wrap.
    pub open spec fn range(self, p: int, n: int) -> Seq<u8> {
        Seq::new(n as nat, |i: int| self.byte(p + i))
    }
}

/// `data` after writing `src` at positions `p, p + 1, ...` of a ring with the
/// given header and capacity.
pub open spec fn ring_write(data: Seq<u8>, header: int, capacity: int, p: int, src: Seq<u8>) -> Seq<
    u8,
>
    decreases src.len(),
{
    if src.len() == 0 {
        data
    } else {
        ring_write(data, header, capacity, p, src.drop_last()).update(
            ring_offset(header, capacity, p + src.len() - 1),
            src.last(),
        )
    }
}

pub proof fn lemma_offset_in_bounds(s: RingState, p: int)
    requires
        s.wf(),
        p >= 0,
    ensures
        0 <= s.offset(p) < s.data.len(),
        p >= s.header ==> s.offset(p) >= s.header,
{
    if p >= s.header {
        lemma_mod_pos_bound(p - s.header, s.capacity());
    }
}

/// The offset of the next position follows the offset of this one, back to
/// the start of the body at its end.
pub proof fn lemma_offset_next(s: RingState, p: int)
    requires
        s.wf(),
        p >= 0,
    ensures
        s.offset(p + 1) == if s.offset(p) + 1 == s.data.len() {
            s.header as int
        } else {
            s.offset(p) + 1
        },
{
    let h = s.header as int;
    let c = s.capacity();
    lemma_offset_in_bounds(s, p);
    if p + 1 < h {
    } else if p + 1 == h {
        lemma_small_mod(0, c as nat);
    } else {
        let q = (p - h) / c;
        let r = (p - h) % c;
        vstd::arithmetic::div_mod::lemma_fundamental_div_mod(p - h, c);
        lemma_mod_pos_bound(p - h, c);
        assert(p - h == q * c + r) by (nonlinear_arith)
            requires
                p - h == c * q + r,
        ;
        if r + 1 < c {
            lemma_fundamental_div_mod_converse(p + 1 - h, c, q, r + 1);
        } else {
            vstd::arithmetic::mul::lemma_mul_is_distributive_add_other_way(c, q, 1);
            lemma_fundamental_div_mod_converse(p + 1 - h, c, q + 1, 0);
        }
    }
}

pub proof fn lemma_ring_write_len(data: Seq<u8>, header: int, capacity: int, p: int, src: Seq<u8>)
    requires
        0 <= header < data.len(),
        capacity == data.len() - header,
        p >= 0,
    ensures
        ring_write(data, header, capacity, p, src).len() == data.len(),
    decreases src.len(),
{
    if src.len() > 0 {
        lemma_ring_write_len(data, header, capacity, p, src.drop_last());
        let s = RingState { data, header: header as nat, pos: 0 };
        lemma_offset_in_bounds(s, p + src.len() - 1);
    }
}

/// Positions of the body less than a capacity apart lie at distinct offsets.
pub proof fn lemma_offsets_distinct(s: RingState, p: int, i: int, j: int)
    requires
        s.wf(),
        p >= s.header,
        0 <= i < j < s.capacity(),
    ensures
        s.offset(p + i) != s.offset(p + j),
{
    let h = s.header as int;
    let c = s.capacity();
    let a = p - h + i;
    let d = j - i;
    let q = a / c;
    let r = a % c;
    vstd::arithmetic::div_mod::lemma_fundamental_div_mod(a, c);
    lemma_mod_pos_bound(a, c);
    assert(a == q * c + r) by (nonlinear_arith)
        requires
            a == c * q + r,
    ;
    if r + d < c {
        lemma_fundamental_div_mod_converse(a + d, c, q, r + d);
    } else {
        assert(a + d == (q + 1) * c + (r + d - c)) by (nonlinear_arith)
            requires
                a == q * c + r,
        ;
        lemma_fundamental_div_mod_converse(a + d, c, q + 1, r + d - c);
    }
    assert(p + j - h == a + d);
}

/// Bytes written at a body position (no more than the capacity) read back
/// from there.
pub proof fn lemma_ring_write_read(data: Seq<u8>, header: int, capacity: int, p: int, src: Seq<u8>)
    requires
        0 <= header < data.len(),
        capacity == data.len() - header,
        p >= header,
        src.len() <= capacity,
    ensures
        (RingState { data: ring_write(data, header, capacity, p, src), header: header as nat, pos: 0 }).range(
            p,
            src.len() as int,
        ) == src,
    decreases src.len(),
{
    let n = src.len() as int;
    let s0 = RingState { data, header: header as nat, pos: 0 };
    let w = ring_write(data, header, capacity, p, src);
    let sw = RingState { data: w, header: header as nat, pos: 0 };
    if n > 0 {
        let prev = ring_write(data, header, capacity, p, src.drop_last());
        let sp = RingState { data: prev, header: header as nat, pos: 0 };
        lemma_ring_write_read(data, header, capacity, p, src.drop_last());
        lemma_ring_write_len(data, header, capacity, p, src.drop_last());
        lemma_offset_in_bounds(s0, p + n - 1);
        assert forall|i: int| 0 <= i < n implies #[trigger] sw.range(p, n)[i] == src[i] by {
            if i < n - 1 {
                lemma_offsets_distinct(sp, p, i, n - 1);
                assert(sp.range(p, n - 1)[i] == src.drop_last()[i]);
            }
        }
        assert(sw.range(p, n) =~= src);
    } else {
        assert(sw.range(p, 0) =~= src);
    }
}

/// Writing at header positions writes the bytes in place.
pub proof fn lemma_ring_write_header(data: Seq<u8>, header: int, capacity: int, p: int, src: Seq<u8>)
    requires
        0 <= header < data.len(),
        capacity == data.len() - header,
        0 <= p,
        p + src.len() <= header,
    ensures
        ring_write(data, header, capacity, p, src) == crate::mach::overwrite(data, p, src),
    decreases src.len(),
{
    if src.len() > 0 {
        lemma_ring_write_header(data, header, capacity, p, src.drop_last());
        assert(crate::mach::overwrite(data, p, src.drop_last()).update(
            p + src.len() - 1,
            src.last(),
        ) =~= crate::mach::overwrite(data, p, src));
    } else {
        assert(crate::mach::overwrite(data, p, src) =~= data);
    }
}

/// Writing at body positions leaves the header as it is.
pub proof fn lemma_ring_write_keeps_header(
    data: Seq<u8>,
    header: int,
    capacity: int,
    p: int,
    src: Seq<u8>,
    i: int,
)
    requires
        0 <= header < data.len(),
        capacity == data.len() - header,
        p >= header,
        0 <= i < header,
    ensures
        ring_write(data, header, capacity, p, src)[i] == data[i],
    decreases src.len(),
{
    if src.len() > 0 {
        lemma_ring_write_keeps_header(data, header, capacity, p, src.drop_last(), i);
        lemma_ring_write_len(data, header, capacity, p, src.drop_last());
        let s0 = RingState { data, header: header as nat, pos: 0 };
        lemma_offset_in_bounds(s0, p + src.len() - 1);
    }
}

/// Copying `n` bytes from a body position gives the same bytes as copying them
/// from that position reduced modulo the capacity; two adjacent copies
/// concatenate to the copy over their union.
pub proof fn lemma_ring_wrap_identity(s: RingState, p: int, n: int, m: int)
    requires
        s.wf(),
        p >= s.header,
        0 <= n,
        0 <= m,
    ensures
        s.range(p, n) == s.range(s.header + (p - s.header) % s.capacity(), n),
        s.range(p, n) + s.range(p + n, m) == s.range(p, n + m),
{
    let h = s.header as int;
    let c = s.capacity();
    let p2 = h + (p - h) % c;
    lemma_mod_pos_bound(p - h, c);
    assert forall|i: int| 0 <= i < n implies #[trigger] s.byte(p + i) == s.byte(p2 + i) by {
        lemma_add_mod_noop(p - h, i, c);
        lemma_add_mod_noop((p - h) % c, i, c);
        vstd::arithmetic::div_mod::lemma_mod_twice(p - h, c);
    }
    assert(s.range(p, n) =~= s.range(p2, n));
    assert(s.range(p, n) + s.range(p + n, m) =~= s.range(p, n + m));
}

/// A cursor that reads a ring region.
#[derive(Debug, Clone, Copy)]
pub struct RingReader<'a> {
    buf: &'a [u8],
    pos: usize,
    /// The size of the header in the beginning.
    header: usize,
}

impl<'a> View for RingReader<'a> {
    type V = RingState;

    closed spec fn view(&self) -> RingState {
        RingState { data: self.buf@, header: self.header as nat, pos: self.pos as nat }
    }
}

impl<'a> RingReader<'a> {
    pub fn new(buf: &'a [u8]) -> (r: RingReader<'a>)
        ensures
            r@ == (RingState { data: buf@, header: 0, pos: 0 }),
    {
        Self::buf_at(buf, 0, 0)
    }

    /// Creates a new `RingReader` at the given position in the buffer.
    /// The buffer includes the header.
    pub fn buf_at(buf: &'a [u8], hdr: usize, pos: usize) -> (r: RingReader<'a>)
        ensures
            r@ == (RingState { data: buf@, header: hdr as nat, pos: pos as nat }),
    {
        RingReader { buf, pos, header: hdr }
    }

    /// Returns the offset in the region of a position.
    pub fn pos_to_offset(&self, pos: usize) -> (r: usize)
        requires
            self@.wf(),
        ensures
            r == self@.offset(pos as int),
    {
        pos_to_offset(self.header, self.buf.len() - self.header, pos)
    }

    /// Copies the bytes from `p` on into `out[0..n]`.
    fn copy_from(&self, p: usize, out: &mut [u8], n: usize)
        requires
            self@.wf(),
            n <= old(out)@.len(),
        ensures
            final(out)@.len() == old(out)@.len(),
            final(out)@.subrange(0, n as int) == self@.range(p as int, n as int),
            final(out)@.subrange(n as int, final(out)@.len() as int) == old(out)@.subrange(
                n as int,
                old(out)@.len() as int,
            ),
    {
        let len = self.buf.len();
        let mut off = self.pos_to_offset(p);
        proof {
            lemma_offset_in_bounds(self@, p as int);
        }
        let mut i: usize = 0;
        while i < n
            invariant
                self@.wf(),
                len == self@.data.len(),
                n <= out@.len(),
                out@.len() == old(out)@.len(),
                0 <= i <= n,
                off == self@.offset(p + i),
                0 <= off < len,
                forall|j: int| 0 <= j < i ==> #[trigger] out@[j] == self@.byte(p + j),
                forall|j: int| n <= j < out@.len() ==> out@[j] == old(out)@[j],
            decreases n - i,
        {
            out[i] = self.buf[off];
            proof {
                lemma_offset_next(self@, p + i);
                lemma_offset_in_bounds(self@, p + i + 1);
            }
            off = if off + 1 == len {
                self.header
            } else {
                off + 1
            };
            i = i + 1;
        }
        assert(out@.subrange(0, n as int) =~= self@.range(p as int, n as int));
        assert(out@.subrange(n as int, out@.len() as int) =~= old(out)@.subrange(
            n as int,
            old(out)@.len() as int,
        ));
    }

    /// Copies the bytes from the current position on into `buf`, at most as
    /// many as the region holds; returns their number.
    pub fn block(&self, buf: &mut [u8]) -> (r: usize)
        requires
            self@.wf(),
        ensures
            r as int == if old(buf)@.len() < self@.data.len() {
                old(buf)@.len() as int
            } else {
                self@.data.len() as int
            },
            final(buf)@.len() == old(buf)@.len(),
            final(buf)@.subrange(0, r as int) == self@.range(self@.pos as int, r as int),
            final(buf)@.subrange(r as int, final(buf)@.len() as int) == old(buf)@.subrange(
                r as int,
                old(buf)@.len() as int,
            ),
    {
        let n = if buf.len() > self.buf.len() {
            self.buf.len()
        } else {
            buf.len()
        };
        self.copy_from(self.pos, buf, n);
        n
    }

    /// The CRC-32C of the `size` bytes from the current position on.
    pub fn crc32c(&self, size: usize) -> (r: Result<u32, Error>)
        requires
            self@.wf(),
        ensures
            size > self@.data.len() ==> r == Err::<u32, Error>(Error::ShortRead),
            size <= self@.data.len() ==> r == Ok::<u32, Error>(
                crc32c_of(self@.range(self@.pos as int, size as int)),
            ),
    {
        if size > self.buf.len() {
            return Err(Error::ShortRead);
        }
        let mut buf = vec![0u8; size];
        self.copy_from(self.pos, buf.as_mut_slice(), size);
        assert(buf@ =~= buf@.subrange(0, size as int));
        Ok(crc32c(buf.as_slice()))
    }

    pub fn pos(&self) -> (r: usize)
        ensures
            r == self@.pos,
    {
        self.pos
    }

    pub fn header(&self) -> (r: usize)
        ensures
            r == self@.header,
    {
        self.header
    }

    pub fn capacity(&self) -> (r: usize)
        requires
            self@.wf(),
        ensures
            r == self@.capacity(),
    {
        self.buf.len() - self.header
    }

    pub fn len(&self) -> (r: usize)
        ensures
            r == self@.data.len(),
    {
        self.buf.len()
    }

    pub fn is_empty(&self) -> (r: bool)
        ensures
            r == (self@.data.len() == 0),
    {
        self.len() == 0
    }

    /// Checks that `t` bytes can be read from the current position.
    pub fn ensure(&self, t: usize) -> (r: Result<(), Error>)
        ensures
            r == if self@.data.len() < t {
                Err::<(), Error>(Error::ShortRead)
            } else if self@.pos + t > usize::MAX {
                Err::<(), Error>(Error::PosOverflow)
            } else {
                Ok::<(), Error>(())
            },
    {
        if self.len() < t {
            return Err(Error::ShortRead);
        }
        if self.pos.checked_add(t).is_none() {
            return Err(Error::PosOverflow);
        }
        Ok(())
    }

    /// Moves the position forward by `bytes`, unless that overflows.
    pub fn advance(&mut self, bytes: usize) -> (r: bool)
        ensures
            r == (old(self)@.pos + bytes <= usize::MAX),
            final(self)@ == (RingState {
                pos: if r {
                    (old(self)@.pos + bytes) as nat
                } else {
                    old(self)@.pos
                },
                ..old(self)@
            }),
    {
        if let Some(new_pos) = self.pos.checked_add(bytes) {
            self.pos = new_pos;
            true
        } else {
            false
        }
    }

    /// A copy of this reader moved forward by `bytes` (or not moved, where
    /// that overflows).
    pub fn advanced(&self, bytes: usize) -> (r: RingReader<'a>)
        ensures
            r@ == (RingState {
                pos: if self@.pos + bytes <= usize::MAX {
                    (self@.pos + bytes) as nat
                } else {
                    self@.pos
                },
                ..self@
            }),
    {
        let mut r = *self;
        r.advance(bytes);
        r
    }

    /// A copy of this reader at position `pos`.
    pub fn at_pos(&self, pos: usize) -> (r: RingReader<'a>)
        ensures
            r@ == (RingState { pos: pos as nat, ..self@ }),
    {
        RingReader { buf: self.buf, pos, header: self.header }
    }

    /// The byte `index` positions after the current one.
    pub fn index(&self, index: usize) -> (r: Result<u8, Error>)
        requires
            self@.wf(),
        ensures
            self@.pos + index + 1 > usize::MAX ==> r == Err::<u8, Error>(Error::PosOverflow),
            self@.pos + index + 1 <= usize::MAX ==> r == Ok::<u8, Error>(
                self@.byte(self@.pos + index),
            ),
    {
        match self.pos.checked_add(index) {
            Some(pos) => self.at_pos(pos).peek_1(),
            None => Err(Error::PosOverflow),
        }
    }

    /// The byte at the current position.
    pub fn peek_1(&self) -> (r: Result<u8, Error>)
        requires
            self@.wf(),
        ensures
            r == if self@.pos + 1 > usize::MAX {
                Err::<u8, Error>(Error::PosOverflow)
            } else {
                Ok::<u8, Error>(self@.byte(self@.pos as int))
            },
    {
        self.ensure(1)?;
        let offset = self.pos_to_offset(self.pos);
        proof {
            lemma_offset_in_bounds(self@, self@.pos as int);
        }
        Ok(self.buf[offset])
    }

    /// Reads `n` bytes and moves past them.
    fn take(&mut self, n: usize) -> (r: Result<Vec<u8>, Error>)
        requires
            old(self)@.wf(),
        ensures
            r is Err ==> final(self)@ == old(self)@,
            r is Ok <==> old(self).ensure_spec(n as int) is Ok,
            r is Err ==> old(self).ensure_spec(n as int) == Err::<(), Error>(r->Err_0),
            r is Ok ==> old(self).ensure_spec(n as int) is Ok && r->Ok_0@ == old(self)@.range(
                old(self)@.pos as int,
                n as int,
            ) && final(self)@ == (RingState { pos: (old(self)@.pos + n) as nat, ..old(self)@ }),
    {
        self.ensure(n)?;
        let mut out = vec![0u8; n];
        self.copy_from(self.pos, out.as_mut_slice(), n);
        assert(out@ =~= out@.subrange(0, n as int));
        self.pos = self.pos + n;
        Ok(out)
    }

    pub open spec fn ensure_spec(&self, t: int) -> Result<(), Error> {
        if self@.data.len() < t {
            Err(Error::ShortRead)
        } else if self@.pos + t > usize::MAX {
            Err(Error::PosOverflow)
        } else {
            Ok(())
        }
    }

    pub fn read_1(&mut self) -> (r: Result<u8, Error>)
        requires
            old(self)@.wf(),
        ensures
            r is Err ==> final(self)@ == old(self)@,
            r is Ok <==> old(self).ensure_spec(1) is Ok,
            r is Err ==> r == Err::<u8, Error>(old(self).ensure_spec(1)->Err_0),
            r is Ok ==> old(self).ensure_spec(1) is Ok && r->Ok_0 == old(self)@.byte(
                old(self)@.pos as int,
            ) && final(self)@ == (RingState { pos: (old(self)@.pos + 1) as nat, ..old(self)@ }),
    {
        let b = self.take(1)?;
        Ok(b[0])
    }

    pub fn read_4(&mut self) -> (r: Result<u32, Error>)
        requires
            old(self)@.wf(),
        ensures
            r is Err ==> final(self)@ == old(self)@,
            r is Ok <==> old(self).ensure_spec(4) is Ok,
            r is Err ==> r == Err::<u32, Error>(old(self).ensure_spec(4)->Err_0),
            r is Ok ==> old(self).ensure_spec(4) is Ok && r->Ok_0 == be_u32(
                old(self)@.range(old(self)@.pos as int, 4),
            ) && final(self)@ == (RingState { pos: (old(self)@.pos + 4) as nat, ..old(self)@ }),
    {
        let b = self.take(4)?;
        assert(field(b@, 0, 4) =~= b@);
        Ok(crate::mach::read_u32_at(b.as_slice(), 0))
    }

    pub fn read_8(&mut self) -> (r: Result<u64, Error>)
        requires
            old(self)@.wf(),
        ensures
            r is Err ==> final(self)@ == old(self)@,
            r is Ok <==> old(self).ensure_spec(8) is Ok,
            r is Err ==> r == Err::<u64, Error>(old(self).ensure_spec(8)->Err_0),
            r is Ok ==> old(self).ensure_spec(8) is Ok && r->Ok_0 == be_u64(
                old(self)@.range(old(self)@.pos as int, 8),
            ) && final(self)@ == (RingState { pos: (old(self)@.pos + 8) as nat, ..old(self)@ }),
    {
        let b = self.take(8)?;
        assert(field(b@, 0, 8) =~= b@);
        Ok(crate::mach::read_u64_at(b.as_slice(), 0))
    }

    /// Whether the `size` bytes from the current position on (at most as many
    /// as the region holds) are all zero.
    pub fn zero(&self, size: usize) -> (r: bool)
        requires
            self@.wf(),
        ensures
            r == (forall|i: int|
                0 <= i < size && i < self@.data.len() ==> #[trigger] self@.byte(self@.pos + i) == 0),
    {
        let n = if size > self.buf.len() {
            self.buf.len()
        } else {
            size
        };
        let mut buf = vec![0u8; n];
        self.copy_from(self.pos, buf.as_mut_slice(), n);
        let mut i: usize = 0;
        while i < n
            invariant
                0 <= i <= n,
                n == buf@.len(),
                n as int == if size < self@.data.len() {
                    size as int
                } else {
                    self@.data.len() as int
                },
                buf@.subrange(0, n as int) == self@.range(self@.pos as int, n as int),
                forall|j: int| 0 <= j < i ==> #[trigger] self@.byte(self@.pos + j) == 0,
            decreases n - i,
        {
            assert(buf@[i as int] == buf@.subrange(0, n as int)[i as int]);
            if buf[i] != 0 {
                return false;
            }
            i = i + 1;
        }
        true
    }

    /// Reads into `buf` as many bytes as it holds, at most as many as the
    /// region holds; returns their number.
    pub fn read(&mut self, buf: &mut [u8]) -> (r: Result<usize, Error>)
        requires
            old(self)@.wf(),
        ensures
            ({
                let k = if old(buf)@.len() < old(self)@.data.len() {
                    old(buf)@.len() as int
                } else {
                    old(self)@.data.len() as int
                };
                &&& old(self)@.pos + k > usize::MAX ==> r == Err::<usize, Error>(Error::PosOverflow)
                    && final(self)@ == old(self)@ && final(buf)@ == old(buf)@
                &&& old(self)@.pos + k <= usize::MAX ==> r == Ok::<usize, Error>(k as usize)
                    && final(buf)@.len() == old(buf)@.len() && final(buf)@.subrange(0, k)
                    == old(self)@.range(old(self)@.pos as int, k) && final(buf)@.subrange(
                    k,
                    final(buf)@.len() as int,
                ) == old(buf)@.subrange(k, old(buf)@.len() as int) && final(self)@ == (RingState {
                    pos: (old(self)@.pos + k) as nat,
                    ..old(self)@
                })
            }),
    {
        let k = if buf.len() < self.buf.len() {
            buf.len()
        } else {
            self.buf.len()
        };
        if self.pos.checked_add(k).is_none() {
            return Err(Error::PosOverflow);
        }
        let n = self.block(buf);
        self.pos = self.pos + n;
        Ok(n)
    }

    /// Fills `buf` with the bytes from the current position on.
    pub fn read_exact(&mut self, buf: &mut [u8]) -> (r: Result<(), Error>)
        requires
            old(self)@.wf(),
        ensures
            old(self)@.pos + old(buf)@.len() > usize::MAX ==> r == Err::<(), Error>(
                Error::PosOverflow,
            ),
            old(self)@.pos + old(buf)@.len() <= usize::MAX ==> r == Ok::<(), Error>(()),
            r is Err ==> final(self)@ == old(self)@ && final(buf)@ == old(buf)@,
            r is Ok ==> final(buf)@ == old(self)@.range(old(self)@.pos as int, old(buf)@.len() as int)
                && final(self)@ == (RingState {
                pos: (old(self)@.pos + old(buf)@.len()) as nat,
                ..old(self)@
            }),
    {
        let n = buf.len();
        if self.pos.checked_add(n).is_none() {
            return Err(Error::PosOverflow);
        }
        self.copy_from(self.pos, buf, n);
        assert(buf@ =~= buf@.subrange(0, n as int));
        self.pos = self.pos + n;
        Ok(())
    }
}

/// Returns the offset in the header+ring region of a position.
pub fn pos_to_offset(hdr: usize, body: usize, pos: usize) -> (r: usize)
    requires
        pos >= hdr ==> body > 0,
        hdr + body <= usize::MAX,
    ensures
        r == ring_offset(hdr as int, body as int, pos as int),
{
    if pos < hdr {
        return pos;
    }
    proof {
        lemma_mod_pos_bound(pos - hdr, body as int);
    }
    hdr + (pos - hdr) % body
}


/// Where a writer's position moves to.
#[derive(Debug, Clone, Copy, PartialEq, Eq, Structural)]
pub enum SeekFrom {
    /// To the given position.
    Start(u64),
    /// Back from the current position by the given amount (forward where it
    /// is negative).
    End(i64),
    /// Forward from the current position by the given amount (back where it
    /// is negative).
    Current(i64),
}

/// The position that a seek from `pos` reaches.
pub open spec fn seek_target(pos: int, to: SeekFrom) -> Result<int, Error> {
    match to {
        SeekFrom::Start(o) => if o > usize::MAX {
            Err(Error::PosOverflow)
        } else {
            Ok(o as int)
        },
        SeekFrom::End(o) => if o > 0 && o > pos {
            Err(Error::InvalidInput)
        } else if pos - o > usize::MAX {
            Err(Error::PosOverflow)
        } else {
            Ok(pos - o)
        },
        SeekFrom::Current(o) => if o < 0 && pos < -o {
            Err(Error::InvalidInput)
        } else if pos + o > usize::MAX {
            Err(Error::PosOverflow)
        } else {
            Ok(pos + o)
        },
    }
}

/// The magnitude of `o`.
fn magnitude(o: i64) -> (r: u64)
    ensures
        r == if o < 0 {
            -o
        } else {
            o as int
        },
{
    if o < 0 {
        ((-(o + 1)) as u64) + 1
    } else {
        o as u64
    }
}

/// A cursor that writes a ring region that it owns.
#[derive(Debug)]
pub struct RingWriter {
    buf: Vec<u8>,
    pos: usize,
    /// The size of the header in the beginning.
    header: usize,
}

impl View for RingWriter {
    type V = RingState;

    closed spec fn view(&self) -> RingState {
        RingState { data: self.buf@, header: self.header as nat, pos: self.pos as nat }
    }
}

impl RingWriter {
    pub fn new(buf: Vec<u8>) -> (r: RingWriter)
        ensures
            r@ == (RingState { data: buf@, header: 0, pos: 0 }),
    {
        Self::buf_at(buf, 0, 0)
    }

    /// Creates a new `RingWriter` at the given position in the buffer.
    /// The buffer includes the header.
    pub fn buf_at(buf: Vec<u8>, hdr: usize, pos: usize) -> (r: RingWriter)
        ensures
            r@ == (RingState { data: buf@, header: hdr as nat, pos: pos as nat }),
    {
        RingWriter { buf, pos, header: hdr }
    }

    /// The region.
    pub fn buf(&self) -> (r: &[u8])
        ensures
            r@ == self@.data,
    {
        self.buf.as_slice()
    }

    /// Gives the region back.
    pub fn into_inner(self) -> (r: Vec<u8>)
        ensures
            r@ == self@.data,
    {
        self.buf
    }

    /// Returns the offset in the region of a position.
    pub fn pos_to_offset(&self, pos: usize) -> (r: usize)
        requires
            self@.wf(),
        ensures
            r == self@.offset(pos as int),
    {
        pos_to_offset(self.header, self.buf.len() - self.header, pos)
    }

    pub fn pos(&self) -> (r: usize)
        ensures
            r == self@.pos,
    {
        self.pos
    }

    pub fn header(&self) -> (r: usize)
        ensures
            r == self@.header,
    {
        self.header
    }

    pub fn capacity(&self) -> (r: usize)
        requires
            self@.wf(),
        ensures
            r == self@.capacity(),
    {
        self.buf.len() - self.header
    }

    pub fn len(&self) -> (r: usize)
        ensures
            r == self@.data.len(),
    {
        self.buf.len()
    }

    pub fn is_empty(&self) -> (r: bool)
        ensures
            r == (self@.data.len() == 0),
    {
        self.len() == 0
    }

    /// Checks that the region holds at least `t` bytes.
    pub fn ensure(&self, t: usize) -> (r: Result<(), Error>)
        ensures
            r == if self@.data.len() < t {
                Err::<(), Error>(Error::ShortRead)
            } else {
                Ok::<(), Error>(())
            },
    {
        if self.len() < t {
            return Err(Error::ShortRead);
        }
        Ok(())
    }

    /// Moves the position forward by `bytes`.
    pub fn advance(&mut self, bytes: usize) -> (r: Result<(), Error>)
        ensures
            old(self)@.pos + bytes > usize::MAX ==> r == Err::<(), Error>(Error::PosOverflow)
                && final(self)@ == old(self)@,
            old(self)@.pos + bytes <= usize::MAX ==> r == Ok::<(), Error>(()) && final(self)@ == (
            RingState { pos: (old(self)@.pos + bytes) as nat, ..old(self)@ }),
    {
        match self.pos.checked_add(bytes) {
            Some(p) => {
                self.pos = p;
                Ok(())
            },
            None => Err(Error::PosOverflow),
        }
    }

    /// Moves the position; returns the new one.
    pub fn seek(&mut self, to: SeekFrom) -> (r: Result<u64, Error>)
        ensures
            r is Ok <==> seek_target(old(self)@.pos as int, to) is Ok,
            r is Err ==> r->Err_0 == seek_target(old(self)@.pos as int, to)->Err_0 && final(self)@
                == old(self)@,
            r is Ok ==> r->Ok_0 == seek_target(old(self)@.pos as int, to)->Ok_0 && final(self)@ == (
            RingState { pos: r->Ok_0 as nat, ..old(self)@ }),
    {
        let pos = self.pos as u64;
        let new_pos: u64 = match to {
            SeekFrom::Start(o) => o,
            SeekFrom::End(o) => {
                let m = magnitude(o);
                if o > 0 && m > pos {
                    return Err(Error::InvalidInput);
                }
                if o < 0 {
                    match pos.checked_add(m) {
                        Some(p) => p,
                        None => return Err(Error::PosOverflow),
                    }
                } else {
                    pos - m
                }
            },
            SeekFrom::Current(o) => {
                let m = magnitude(o);
                if o < 0 && pos < m {
                    return Err(Error::InvalidInput);
                }
                if o < 0 {
                    pos - m
                } else {
                    match pos.checked_add(m) {
                        Some(p) => p,
                        None => return Err(Error::PosOverflow),
                    }
                }
            },
        };
        if new_pos > usize::MAX as u64 {
            return Err(Error::PosOverflow);
        }
        self.pos = new_pos as usize;
        Ok(new_pos)
    }

    /// Writes `data[0..n]` at the positions from the current one on.
    fn put(&mut self, data: &[u8], n: usize)
        requires
            old(self)@.wf(),
            n <= data@.len(),
            old(self)@.pos + n <= usize::MAX,
        ensures
            final(self)@ == (RingState {
                data: ring_write(
                    old(self)@.data,
                    old(self)@.header as int,
                    old(self)@.capacity(),
                    old(self)@.pos as int,
                    data@.subrange(0, n as int),
                ),
                pos: (old(self)@.pos + n) as nat,
                ..old(self)@
            }),
    {
        let ghost s0 = self@;
        let len = self.buf.len();
        let mut off = self.pos_to_offset(self.pos);
        proof {
            lemma_offset_in_bounds(s0, s0.pos as int);
        }
        let mut i: usize = 0;
        while i < n
            invariant
                s0.wf(),
                len == s0.data.len(),
                self.header == s0.header,
                self.pos == s0.pos,
                n <= data@.len(),
                0 <= i <= n,
                off == s0.offset(s0.pos + i),
                0 <= off < len,
                self.buf@ == ring_write(
                    s0.data,
                    s0.header as int,
                    s0.capacity(),
                    s0.pos as int,
                    data@.subrange(0, i as int),
                ),
            decreases n - i,
        {
            proof {
                lemma_ring_write_len(
                    s0.data,
                    s0.header as int,
                    s0.capacity(),
                    s0.pos as int,
                    data@.subrange(0, i as int),
                );
                assert(data@.subrange(0, i + 1).drop_last() =~= data@.subrange(0, i as int));
            }
            self.buf.set(off, data[i]);
            proof {
                lemma_offset_next(s0, s0.pos + i);
                lemma_offset_in_bounds(s0, s0.pos + i + 1);
            }
            off = if off + 1 == len {
                self.header
            } else {
                off + 1
            };
            i = i + 1;
        }
        self.pos = self.pos + n;
    }

    /// Writes as many bytes of `data` as fit before the position comes back to
    /// its own offset; returns their number.
    pub fn write(&mut self, data: &[u8]) -> (r: Result<usize, Error>)
        requires
            old(self)@.wf(),
        ensures
            ({
                let k = old(self)@.write_count(data@.len() as int);
                &&& old(self)@.pos + k > usize::MAX ==> r == Err::<usize, Error>(Error::PosOverflow)
                    && final(self)@ == old(self)@
                &&& old(self)@.pos + k <= usize::MAX ==> r == Ok::<usize, Error>(k as usize)
                    && final(self)@ == (RingState {
                    data: ring_write(
                        old(self)@.data,
                        old(self)@.header as int,
                        old(self)@.capacity(),
                        old(self)@.pos as int,
                        data@.subrange(0, k),
                    ),
                    pos: (old(self)@.pos + k) as nat,
                    ..old(self)@
                })
            }),
    {
        let off = self.pos_to_offset(self.pos);
        proof {
            lemma_offset_in_bounds(self@, self@.pos as int);
        }
        let room = if self.pos >= self.header {
            self.buf.len() - self.header
        } else {
            self.buf.len() - off
        };
        let n = if data.len() < room {
            data.len()
        } else {
            room
        };
        if self.pos.checked_add(n).is_none() {
            return Err(Error::PosOverflow);
        }
        self.put(data, n);
        Ok(n)
    }

    /// Writes all of `data` at the positions from the current one on.
    pub fn write_all(&mut self, data: &[u8]) -> (r: Result<(), Error>)
        requires
            old(self)@.wf(),
        ensures
            old(self)@.pos + data@.len() > usize::MAX ==> r == Err::<(), Error>(Error::PosOverflow)
                && final(self)@ == old(self)@,
            old(self)@.pos + data@.len() <= usize::MAX ==> r == Ok::<(), Error>(()) && final(self)@
                == (RingState {
                data: ring_write(
                    old(self)@.data,
                    old(self)@.header as int,
                    old(self)@.capacity(),
                    old(self)@.pos as int,
                    data@,
                ),
                pos: (old(self)@.pos + data@.len()) as nat,
                ..old(self)@
            }),
    {
        if self.pos.checked_add(data.len()).is_none() {
            return Err(Error::PosOverflow);
        }
        self.put(data, data.len());
        assert(data@.subrange(0, data@.len() as int) =~= data@);
        Ok(())
    }

    /// The region is memory; nothing to flush.
    pub fn flush(&mut self) -> (r: Result<(), Error>)
        ensures
            r == Ok::<(), Error>(()),
            final(self)@ == old(self)@,
    {
        Ok(())
    }
}

} // verus!
