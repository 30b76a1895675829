use vstd::prelude::*;

verus! {

/// The kinds of failure that the codecs report.
#[derive(Debug, Clone, Copy, PartialEq, Eq, Structural)]
pub enum Error {
    /// Fewer bytes than the field requires.
    ShortRead,
    /// The redo log header checksum does not match.
    HeaderCrc,
    /// A header field holds a value that the format does not allow.
    InvalidData,
    /// An argument is outside what the operation accepts.
    InvalidInput,
    /// A path that the configuration does not give.
    NotFound,
    /// Neither checkpoint block is valid.
    NoValidCheckpoint,
    /// A known log format that this library does not read.
    UnsupportedFormat,
    /// An encrypted log.
    UnsupportedEncrypted,
    /// Further `ib_logfile<N>` files sit beside the log.
    UnsupportedMultiFile,
    /// No further chain of the current pass over the ring.
    EndOfStream,
    /// A mini-transaction chain checksum mismatch.
    ChainChecksum,
    /// A chain longer than the mini-transaction size bound.
    ChainOverrun,
    /// A variable-length integer with the reserved prefix.
    MalformedVarint,
    /// A position that would overflow the 64-bit counter.
    PosOverflow,
    /// A page checksum mismatch or an impossible compressed size.
    PageChecksum,
    /// A page whose flags select a checksum other than full CRC-32C.
    UnsupportedLegacyChecksum,
}

} // verus!
