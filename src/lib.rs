//! Inspection and repair of the on-disk structures of an InnoDB-style storage
//! engine: the ring-buffered redo log with its mini-transaction chains, and
//! the page-structured tablespace files.

use vstd::prelude::*;

pub mod buf0buf;
pub mod config;
pub mod crc;
pub mod error;
pub mod fil0fil;
pub mod fsp0fsp;
pub mod fsp0types;
pub mod fut0lst;
pub mod log;
pub mod mach;
pub mod mtr;
pub mod mtr0log;
pub mod mtr0types;
pub mod page0page;
pub mod page_buf;
pub mod ring;
pub mod tablespace;
pub mod text;
pub mod trx0rseg;
pub mod trx0sys;
pub mod trx0undo;
pub mod univ;
pub mod ut0byte;
pub mod ut0ut;
pub mod wsrep;

verus! {

/// Type used for all log sequence number storage and arithmetic.
pub type Lsn = u64;

pub const LSN_MAX: Lsn = 0xffff_ffff_ffff_ffff;

} // verus!
