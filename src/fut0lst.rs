//! File-based list nodes.
use vstd::prelude::*;

use crate::fil0fil::{fil_addr_t, FIL_ADDR_SIZE};
use crate::mach::{be_u16, be_u32, field, read_u32_at};

verus! {

/// The physical size of a list base node in bytes.
pub const FLST_BASE_NODE_SIZE: u32 = 4 + 2 * FIL_ADDR_SIZE;

/// The physical size of a list node in bytes.
pub const FLST_NODE_SIZE: u32 = 2 * FIL_ADDR_SIZE;

/// The file address stored at `off`.
pub open spec fn addr_at(b: Seq<u8>, off: int) -> fil_addr_t {
    fil_addr_t { page: be_u32(field(b, off, 4)), boffset: be_u16(field(b, off + 4, 2)) }
}

/// A list base node: the length of the list and its first and last nodes.
#[allow(non_camel_case_types)]
#[derive(Debug, Clone, Copy, PartialEq, Eq, Structural)]
pub struct flst_base_node_t {
    pub len: u32,
    pub first: fil_addr_t,
    pub last: fil_addr_t,
}

/// A list node: the addresses of its neighbours.
#[allow(non_camel_case_types)]
#[derive(Debug, Clone, Copy, PartialEq, Eq, Structural)]
pub struct flst_node_t {
    pub prev: fil_addr_t,
    pub next: fil_addr_t,
}

/// Reads the file address at `off`.
fn addr_from(buf: &[u8], off: usize) -> (r: fil_addr_t)
    requires
        off + FIL_ADDR_SIZE <= buf@.len(),
    ensures
        r == addr_at(buf@, off as int),
{
    let _n = buf.len();
    let r = fil_addr_t::from_buf(&buf[off..off + 6]);
    assert(field(buf@, off as int, 4) =~= buf@.subrange(off as int, off + 6).subrange(0, 4));
    assert(field(buf@, off + 4, 2) =~= field(buf@.subrange(off as int, off + 6), 4, 2));
    r
}

impl flst_base_node_t {
    /// Reads a list base node from the first 16 bytes of `buf`.
    pub fn from_buf(buf: &[u8]) -> (r: flst_base_node_t)
        requires
            buf@.len() >= FLST_BASE_NODE_SIZE,
        ensures
            r.len == be_u32(field(buf@, 0, 4)),
            r.first == addr_at(buf@, 4),
            r.last == addr_at(buf@, 10),
    {
        let len = read_u32_at(buf, 0);
        let first = addr_from(buf, 4);
        let last = addr_from(buf, 4 + FIL_ADDR_SIZE as usize);
        flst_base_node_t { len, first, last }
    }
}

impl flst_node_t {
    /// Reads a list node from the first 12 bytes of `buf`.
    pub fn from_buf(buf: &[u8]) -> (r: flst_node_t)
        requires
            buf@.len() >= FLST_NODE_SIZE,
        ensures
            r.prev == addr_at(buf@, 0),
            r.next == addr_at(buf@, 6),
    {
        let prev = addr_from(buf, 0);
        let next = addr_from(buf, FIL_ADDR_SIZE as usize);
        flst_node_t { prev, next }
    }
}

} // verus!
