//! The WSREP XID record of the transaction system and rollback segment
//! headers.
use vstd::prelude::*;

verus! {

/// The size of the XID data.
pub const XIDDATASIZE: u32 = MYSQL_XIDDATASIZE;

/// The size of the XID data of `struct st_mysql_xid`.
pub const MYSQL_XIDDATASIZE: u32 = 128;

/// WSREP XID info structure. Present in the trx_sys_t or trx_rseg_t header.
#[allow(non_camel_case_types)]
#[derive(Debug, Clone, PartialEq, Eq)]
pub struct wsrep_xid_t {
    pub format: u32,
    pub gtrid_len: u32,
    pub bqual_len: u32,
    /// `XIDDATASIZE` bytes
    pub xid_data: Vec<u8>,
}

} // verus!
