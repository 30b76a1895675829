//! The operation codes of redo log records.
use vstd::prelude::*;

verus! {

/// Redo log record types for page operations (bits 4..6 of the first byte).
#[allow(non_camel_case_types)]
#[derive(Debug, Clone, Copy, PartialEq, Eq, Structural)]
pub enum mrec_type_t {
    /// Free a page.
    FREE_PAGE,
    /// Zero-initialize a page.
    INIT_PAGE,
    /// Extended record.
    EXTENDED,
    /// Write a string of bytes.
    WRITE,
    /// Fill bytes with a repeated pattern.
    MEMSET,
    /// Copy bytes within the page.
    MEMMOVE,
    /// Reserved for future use.
    RESERVED,
    /// Optional record that may be ignored in crash recovery.
    OPTION,
}

impl mrec_type_t {
    /// The bit pattern of the type in the first byte of a record.
    pub fn code(self) -> (r: u8)
        ensures
            r == self.spec_code(),
    {
        match self {
            mrec_type_t::FREE_PAGE => 0x00,
            mrec_type_t::INIT_PAGE => 0x10,
            mrec_type_t::EXTENDED => 0x20,
            mrec_type_t::WRITE => 0x30,
            mrec_type_t::MEMSET => 0x40,
            mrec_type_t::MEMMOVE => 0x50,
            mrec_type_t::RESERVED => 0x60,
            mrec_type_t::OPTION => 0x70,
        }
    }

    pub open spec fn spec_code(self) -> u8 {
        match self {
            mrec_type_t::FREE_PAGE => 0x00,
            mrec_type_t::INIT_PAGE => 0x10,
            mrec_type_t::EXTENDED => 0x20,
            mrec_type_t::WRITE => 0x30,
            mrec_type_t::MEMSET => 0x40,
            mrec_type_t::MEMMOVE => 0x50,
            mrec_type_t::RESERVED => 0x60,
            mrec_type_t::OPTION => 0x70,
        }
    }
}

/// Redo log record types for file-level operations (bits 4..7 of the first
/// byte).
#[allow(non_camel_case_types)]
#[derive(Debug, Clone, Copy, PartialEq, Eq, Structural)]
pub enum mfile_type_t {
    /// Create a file.
    FILE_CREATE,
    /// Delete a file.
    FILE_DELETE,
    /// Rename a file.
    FILE_RENAME,
    /// Modify a file.
    FILE_MODIFY,
    /// End-of-checkpoint marker, followed by 2 NUL bytes of page identifier
    /// and 8 bytes of LSN.
    FILE_CHECKPOINT,
}

impl mfile_type_t {
    /// The bit pattern of the type in the first byte of a record.
    pub fn code(self) -> (r: u8)
        ensures
            r == self.spec_code(),
    {
        match self {
            mfile_type_t::FILE_CREATE => 0x80,
            mfile_type_t::FILE_DELETE => 0x90,
            mfile_type_t::FILE_RENAME => 0xa0,
            mfile_type_t::FILE_MODIFY => 0xb0,
            mfile_type_t::FILE_CHECKPOINT => 0xf0,
        }
    }

    pub open spec fn spec_code(self) -> u8 {
        match self {
            mfile_type_t::FILE_CREATE => 0x80,
            mfile_type_t::FILE_DELETE => 0x90,
            mfile_type_t::FILE_RENAME => 0xa0,
            mfile_type_t::FILE_MODIFY => 0xb0,
            mfile_type_t::FILE_CHECKPOINT => 0xf0,
        }
    }
}

/// The operation of a decoded record.
#[derive(Debug, Clone, Copy, PartialEq, Eq, Structural)]
pub enum MtrOperation {
    FreePage,
    InitPage,
    Extended,
    Write,
    Memset,
    Memmove,
    Reserved,
    Option,
    FileCreate,
    FileDelete,
    FileRename,
    FileModify,
    FileCheckpoint,
}

/// The operation whose code is `c`, if any.
pub open spec fn op_of_code(c: u8) -> Option<MtrOperation> {
    if c == 0x00 {
        Some(MtrOperation::FreePage)
    } else if c == 0x10 {
        Some(MtrOperation::InitPage)
    } else if c == 0x20 {
        Some(MtrOperation::Extended)
    } else if c == 0x30 {
        Some(MtrOperation::Write)
    } else if c == 0x40 {
        Some(MtrOperation::Memset)
    } else if c == 0x50 {
        Some(MtrOperation::Memmove)
    } else if c == 0x60 {
        Some(MtrOperation::Reserved)
    } else if c == 0x70 {
        Some(MtrOperation::Option)
    } else if c == 0x80 {
        Some(MtrOperation::FileCreate)
    } else if c == 0x90 {
        Some(MtrOperation::FileDelete)
    } else if c == 0xa0 {
        Some(MtrOperation::FileRename)
    } else if c == 0xb0 {
        Some(MtrOperation::FileModify)
    } else if c == 0xf0 {
        Some(MtrOperation::FileCheckpoint)
    } else {
        None
    }
}

impl MtrOperation {
    /// The operation whose code is `value`, if any.
    pub fn from_code(value: u8) -> (r: Option<MtrOperation>)
        ensures
            r == op_of_code(value),
    {
        if value == 0x00 {
            Some(MtrOperation::FreePage)
        } else if value == 0x10 {
            Some(MtrOperation::InitPage)
        } else if value == 0x20 {
            Some(MtrOperation::Extended)
        } else if value == 0x30 {
            Some(MtrOperation::Write)
        } else if value == 0x40 {
            Some(MtrOperation::Memset)
        } else if value == 0x50 {
            Some(MtrOperation::Memmove)
        } else if value == 0x60 {
            Some(MtrOperation::Reserved)
        } else if value == 0x70 {
            Some(MtrOperation::Option)
        } else if value == 0x80 {
            Some(MtrOperation::FileCreate)
        } else if value == 0x90 {
            Some(MtrOperation::FileDelete)
        } else if value == 0xa0 {
            Some(MtrOperation::FileRename)
        } else if value == 0xb0 {
            Some(MtrOperation::FileModify)
        } else if value == 0xf0 {
            Some(MtrOperation::FileCheckpoint)
        } else {
            None
        }
    }
}

} // verus!
