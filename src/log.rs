//! The redo log container: the file header, the two checkpoint blocks, and a
//! cursor over the chains of the ring body.
use vstd::prelude::*;
use vstd::string::StringSliceAdditionalSpecFns;

use crate::crc::{crc32c, crc32c_of};
use crate::text::{ascii_chars, lossy_string, utf8_lossy_of};
use crate::error::Error;
use crate::mach::{
    be_u32, be_u64, field, read_u32_at, read_u64_at, u32_be, u64_be, write_u32_at, write_u64_at,
};
use crate::mtr::{chain_parse, get_sequence_bit, sequence_bit, MtrChain};
use crate::mtr::{file_checkpoint_chain, Mtr};
use crate::ring::{ring_write, RingReader, RingState, RingWriter, SeekFrom};
use crate::Lsn;

verus! {

/// The largest single read or write request of the operating system.
pub const OS_FILE_REQUEST_SIZE_MAX: usize = 0x7fff_f000;

/// The maximum buf_size
pub const BUF_SIZE_MAX: usize = OS_FILE_REQUEST_SIZE_MAX;

/// The original (not version-tagged) InnoDB redo log format
pub const FORMAT_3_23: u32 = 0;

/// The MySQL 5.7.9/MariaDB 10.2.2 log format
pub const FORMAT_10_2: u32 = 1;

/// The MariaDB 10.3.2 log format.
pub const FORMAT_10_3: u32 = 103;

/// The MariaDB 10.4.0 log format.
pub const FORMAT_10_4: u32 = 104;

/// Encrypted MariaDB redo log
pub const FORMAT_ENCRYPTED: u32 = 0x8000_0000;

/// The MariaDB 10.5.1 physical redo log format
pub const FORMAT_10_5: u32 = 0x5048_5953;

/// The MariaDB 10.8.0 variable-block-size redo log format
pub const FORMAT_10_8: u32 = 0x5068_7973;

pub const FORMAT_ENC_10_2: u32 = FORMAT_10_2 | FORMAT_ENCRYPTED;

pub const FORMAT_ENC_10_3: u32 = FORMAT_10_3 | FORMAT_ENCRYPTED;

pub const FORMAT_ENC_10_4: u32 = FORMAT_10_4 | FORMAT_ENCRYPTED;

pub const FORMAT_ENC_10_5: u32 = FORMAT_10_5 | FORMAT_ENCRYPTED;

/// The MariaDB 10.8.0 format with innodb_encrypt_log=ON
pub const FORMAT_ENC_10_8: u32 = FORMAT_10_8 | FORMAT_ENCRYPTED;

/// Location of the first checkpoint block
pub const CHECKPOINT_1: usize = 4096;

/// Location of the second checkpoint block
pub const CHECKPOINT_2: usize = 8192;

/// Start of record payload (0x3000)
pub const START_OFFSET: Lsn = 12288;

/// smallest possible log sequence number in the current format
pub const FIRST_LSN: Lsn = START_OFFSET;

/// Size of a FILE_CHECKPOINT record, including the trailing byte to
/// terminate the mini-transaction and the CRC-32C.
pub const SIZE_OF_FILE_CHECKPOINT: u64 = 16;

/// Log file header format identifier (32-bit unsigned big-endian integer).
pub const LOG_HEADER_FORMAT: usize = 0;

/// LSN of the start of data in this log file.
pub const LOG_HEADER_START_LSN: usize = 8;

/// A NUL-padded string naming the program that created the log file.
pub const LOG_HEADER_CREATOR: usize = 16;

/// End of the log file creator field.
pub const LOG_HEADER_CREATOR_END: usize = 48;

/// CRC-32C checksum of the log file header.
pub const LOG_HEADER_CRC: usize = 508;

/// Redo log encryption key ID.
pub const LOG_DEFAULT_ENCRYPTION_KEY: u32 = 1;

/// The parsed file header.
#[derive(Debug, Clone, PartialEq, Eq)]
pub struct RedoHeader {
    pub version: u32,
    pub first_lsn: Lsn,
    pub creator: String,
    pub crc: u32,
}

/// One checkpoint block as read.
#[derive(Debug, Clone, Copy, PartialEq, Eq, Structural)]
pub struct RedoHeaderCheckpoint {
    pub checkpoint_lsn: Lsn,
    pub end_lsn: Lsn,
    pub checksum: u32,
}

/// Both checkpoint blocks and the live one.
#[derive(Debug, Clone, Copy, PartialEq, Eq)]
pub struct RedoCheckpointCoordinate {
    pub checkpoints: [RedoHeaderCheckpoint; 2],
    pub checkpoint_lsn: Option<Lsn>,
    /// 1 where the live block is the first one, 0 where it is the second.
    pub checkpoint_no: Option<usize>,
    pub end_lsn: Lsn,
    pub encrypted: bool,
    pub version: u32,
    /// Redo log is after a restore operation.
    pub start_after_restore: bool,
    /// Whether each checkpoint block is valid; an invalid one is passed over.
    pub valid: [bool; 2],
}

/// `s` without its trailing NUL bytes.
pub open spec fn trim_nul_end(s: Seq<u8>) -> Seq<u8>
    decreases s.len(),
{
    if s.len() > 0 && s.last() == 0 {
        trim_nul_end(s.drop_last())
    } else {
        s
    }
}

/// The fields of a file header: format, start LSN, creator bytes (without
/// the NUL padding) and stored CRC.
pub open spec fn header_fields(b: Seq<u8>) -> Result<(u32, u64, Seq<u8>, u32), Error> {
    if b.len() < 512 {
        Err(Error::ShortRead)
    } else if be_u32(b) != FORMAT_3_23 && crc32c_of(b.subrange(0, 508)) != be_u32(field(b, 508, 4)) {
        Err(Error::HeaderCrc)
    } else {
        Ok(
            (
                be_u32(b),
                be_u64(field(b, 8, 8)),
                trim_nul_end(b.subrange(16, 48)),
                be_u32(field(b, 508, 4)),
            ),
        )
    }
}

/// The 512-byte header block for `first_lsn` and a creator (cut to 32 bytes).
pub open spec fn header_block(first_lsn: u64, creator: Seq<u8>) -> Seq<u8> {
    let k = if creator.len() < 32 {
        creator.len() as int
    } else {
        32
    };
    let body = u32_be(FORMAT_10_8) + Seq::new(4, |i: int| 0u8) + u64_be(first_lsn)
        + creator.subrange(0, k) + Seq::new((492 - k) as nat, |i: int| 0u8);
    body + u32_be(crc32c_of(body))
}

/// The 64-byte checkpoint block.
pub open spec fn checkpoint_block(checkpoint_lsn: u64, end_lsn: u64) -> Seq<u8> {
    let body = u64_be(checkpoint_lsn) + u64_be(end_lsn) + Seq::new(44, |i: int| 0u8);
    body + u32_be(crc32c_of(body))
}

/// The checkpoint block at `pos` as read.
pub open spec fn block_at(b: Seq<u8>, pos: int) -> RedoHeaderCheckpoint {
    RedoHeaderCheckpoint {
        checkpoint_lsn: be_u64(field(b, pos, 8)),
        end_lsn: be_u64(field(b, pos + 8, 8)),
        checksum: be_u32(field(b, pos + 60, 4)),
    }
}

/// Whether the checkpoint block at `pos` is valid: its CRC matches, its LSNs
/// are ordered after the log start, and its reserved bytes are zero.
pub open spec fn block_valid(b: Seq<u8>, pos: int, first_lsn: u64) -> bool {
    let c = block_at(b, pos);
    &&& c.checkpoint_lsn >= first_lsn
    &&& c.end_lsn >= c.checkpoint_lsn
    &&& field(b, pos + 16, 44) == Seq::new(44, |i: int| 0u8)
    &&& c.checksum == crc32c_of(field(b, pos, 60))
}

/// Whether a creator string marks a log written by a restore.
pub open spec fn is_backup_creator(c: Seq<char>) -> bool {
    c.len() >= 7 && c.subrange(0, 7) == seq!['B', 'a', 'c', 'k', 'u', 'p', ' ']
}

/// The checkpoint coordinate of a log, or why there is none.
pub open spec fn checkpoint_coordinate(
    b: Seq<u8>,
    version: u32,
    first_lsn: u64,
    creator: Seq<char>,
    multiple_log_files: int,
) -> Result<RedoCheckpointCoordinate, Error> {
    let c1 = block_at(b, CHECKPOINT_1 as int);
    let c2 = block_at(b, CHECKPOINT_2 as int);
    let v1 = block_valid(b, CHECKPOINT_1 as int, first_lsn);
    let v2 = block_valid(b, CHECKPOINT_2 as int, first_lsn);
    let second = v2 && (!v1 || c2.checkpoint_lsn >= c1.checkpoint_lsn);
    let live = if second {
        c2
    } else {
        c1
    };
    if b.len() < CHECKPOINT_2 + 64 {
        Err(Error::ShortRead)
    } else if version & FORMAT_ENCRYPTED != 0 {
        Err(Error::UnsupportedEncrypted)
    } else if version != FORMAT_10_8 {
        Err(Error::UnsupportedFormat)
    } else if multiple_log_files > 0 {
        Err(Error::UnsupportedMultiFile)
    } else if be_u32(field(b, 4, 4)) != 0 || first_lsn < FIRST_LSN {
        Err(Error::InvalidData)
    } else if be_u32(field(b, 48, 4)) != 0 {
        Err(Error::UnsupportedEncrypted)
    } else if !v1 && !v2 {
        Err(Error::NoValidCheckpoint)
    } else {
        Ok(
            RedoCheckpointCoordinate {
                checkpoints: [c1, c2],
                checkpoint_lsn: Some(live.checkpoint_lsn),
                checkpoint_no: Some(
                    if second {
                        0
                    } else {
                        1
                    },
                ),
                end_lsn: live.end_lsn,
                encrypted: false,
                version,
                start_after_restore: is_backup_creator(creator),
                valid: [v1, v2],
            },
        )
    }
}

/// Reads the checkpoint block at `pos` and whether it is valid.
fn read_block(buf: &[u8], pos: usize, first_lsn: Lsn) -> (r: (RedoHeaderCheckpoint, bool))
    requires
        pos + 64 <= buf@.len(),
    ensures
        r.0 == block_at(buf@, pos as int),
        r.1 == block_valid(buf@, pos as int, first_lsn),
{
    let n = buf.len();
    let checkpoint_lsn = read_u64_at(buf, pos);
    let end_lsn = read_u64_at(buf, pos + 8);
    let checksum = read_u32_at(buf, pos + 60);
    let mut zero = true;
    let mut i: usize = 0;
    while i < 44
        invariant
            pos + 64 <= buf@.len(),
            n == buf@.len(),
            0 <= i <= 44,
            zero == (forall|j: int| 0 <= j < i ==> #[trigger] buf@[pos + 16 + j] == 0),
        decreases 44 - i,
    {
        if buf[pos + 16 + i] != 0 {
            zero = false;
        }
        i = i + 1;
    }
    proof {
        let z = Seq::new(44, |i: int| 0u8);
        if zero {
            assert forall|k: int| 0 <= k < 44 implies field(buf@, pos + 16, 44)[k] == z[k] by {
                assert(buf@[pos + 16 + k] == 0);
            }
            assert(field(buf@, pos + 16, 44) =~= z);
        } else {
            let j = choose|j: int| 0 <= j < 44 && #[trigger] buf@[pos + 16 + j] != 0;
            assert(field(buf@, pos + 16, 44)[j] != z[j]);
        }
    }
    let crc = crc32c(&buf[pos..pos + 60]);
    let valid = checkpoint_lsn >= first_lsn && end_lsn >= checkpoint_lsn && zero && checksum == crc;
    (RedoHeaderCheckpoint { checkpoint_lsn, end_lsn, checksum }, valid)
}

/// Whether `s` begins with "Backup ".
fn starts_with_backup(s: &String) -> (r: bool)
    ensures
        r == is_backup_creator(s@),
{
    let prefix = ['B', 'a', 'c', 'k', 'u', 'p', ' '];
    let chars = s.as_str();
    let n = chars.unicode_len();
    if n < 7 {
        return false;
    }
    let mut i: usize = 0;
    while i < 7
        invariant
            0 <= i <= 7,
            n == s@.len(),
            n >= 7,
            chars@ == s@,
            prefix@ == seq!['B', 'a', 'c', 'k', 'u', 'p', ' '],
            forall|j: int| 0 <= j < i ==> s@[j] == prefix@[j],
        decreases 7 - i,
    {
        if chars.get_char(i) != prefix[i] {
            return false;
        }
        i = i + 1;
    }
    assert(s@.subrange(0, 7) =~= seq!['B', 'a', 'c', 'k', 'u', 'p', ' ']);
    true
}

/// `s` with its trailing NUL bytes cut, computed from the back.
fn trimmed_len(buf: &[u8], start: usize, end: usize) -> (n: usize)
    requires
        start <= end <= buf@.len(),
    ensures
        start <= n <= end,
        trim_nul_end(buf@.subrange(start as int, end as int)) == buf@.subrange(start as int, n as int),
{
    let mut n = end;
    while n > start && buf[n - 1] == 0
        invariant
            start <= n <= end <= buf@.len(),
            trim_nul_end(buf@.subrange(start as int, end as int)) == trim_nul_end(
                buf@.subrange(start as int, n as int),
            ),
        decreases n,
    {
        assert(buf@.subrange(start as int, n as int).drop_last() =~= buf@.subrange(
            start as int,
            n - 1,
        ));
        n = n - 1;
    }
    n
}

impl RedoHeader {
    /// The 512-byte header block of the current format for `first_lsn`,
    /// holding at most the first 32 bytes of `creator`.
    pub fn build_unencrypted_header_10_8(first_lsn: Lsn, creator: &str) -> (r: Vec<u8>)
        ensures
            r@ == header_block(first_lsn, creator.spec_bytes()),
    {
        let mut buf = vec![0u8; 512];
        write_u32_at(buf.as_mut_slice(), LOG_HEADER_FORMAT, FORMAT_10_8);
        write_u64_at(buf.as_mut_slice(), LOG_HEADER_START_LSN, first_lsn);
        let bytes = creator.as_bytes();
        let creator_len = if bytes.len() < LOG_HEADER_CREATOR_END - LOG_HEADER_CREATOR {
            bytes.len()
        } else {
            LOG_HEADER_CREATOR_END - LOG_HEADER_CREATOR
        };
        let ghost before = buf@;
        let mut i: usize = 0;
        while i < creator_len
            invariant
                creator_len <= 32,
                creator_len <= bytes@.len(),
                buf@.len() == 512,
                0 <= i <= creator_len,
                forall|j: int| 0 <= j < i ==> #[trigger] buf@[16 + j] == bytes@[j],
                forall|j: int| 0 <= j < 512 && !(16 <= j < 16 + i) ==> #[trigger] buf@[j] == before[j],
            decreases creator_len - i,
        {
            buf.set(LOG_HEADER_CREATOR + i, bytes[i]);
            i = i + 1;
        }
        let crc = crc32c(&buf.as_slice()[0..LOG_HEADER_CRC]);
        let ghost k = creator_len as int;
        let ghost body = u32_be(FORMAT_10_8) + Seq::new(4, |i: int| 0u8) + u64_be(first_lsn)
            + bytes@.subrange(0, k) + Seq::new((492 - k) as nat, |i: int| 0u8);
        assert forall|j: int| 0 <= j < 508 implies buf@[j] == body[j] by {
            if j >= 16 + k {
                assert(buf@[j] == before[j]);
            } else if j >= 16 {
                assert(buf@[16 + (j - 16)] == bytes@[j - 16]);
            } else {
                assert(buf@[j] == before[j]);
            }
        }
        assert(buf@.subrange(0, 508) =~= body);
        write_u32_at(buf.as_mut_slice(), LOG_HEADER_CRC, crc);
        assert(buf@ =~= header_block(first_lsn, creator.spec_bytes()));
        buf
    }

    /// The 64-byte checkpoint block: checkpoint LSN, end LSN, 44 NUL bytes and
    /// the CRC-32C of the first 60 bytes.
    pub fn build_unencrypted_header_10_8_checkpoint(checkpoint_lsn: Lsn, end_lsn: Lsn) -> (r: Vec<
        u8,
    >)
        ensures
            r@ == checkpoint_block(checkpoint_lsn, end_lsn),
    {
        let mut buf = vec![0u8; 64];
        write_u64_at(buf.as_mut_slice(), 0, checkpoint_lsn);
        write_u64_at(buf.as_mut_slice(), 8, end_lsn);
        let crc = crc32c(&buf.as_slice()[0..60]);
        assert(buf@.subrange(0, 60) =~= u64_be(checkpoint_lsn) + u64_be(end_lsn) + Seq::new(
            44,
            |i: int| 0u8,
        ));
        write_u32_at(buf.as_mut_slice(), 60, crc);
        assert(buf@ =~= checkpoint_block(checkpoint_lsn, end_lsn));
        buf
    }
}

/// A redo log opened over a byte region.
pub struct Redo<'a> {
    buf: &'a [u8],
    size: u64,
    /// The header of the redo log file.
    hdr: RedoHeader,
    /// Checkpoint coordinates.
    checkpoint: RedoCheckpointCoordinate,
}

/// An opened log, in spec terms.
pub struct RedoState {
    pub data: Seq<u8>,
    pub header: RedoHeader,
    pub checkpoint: RedoCheckpointCoordinate,
}

impl<'a> View for Redo<'a> {
    type V = RedoState;

    closed spec fn view(&self) -> RedoState {
        RedoState { data: self.buf@, header: self.hdr, checkpoint: self.checkpoint }
    }
}

impl RedoState {
    /// The ring body holds the first chain, and the live checkpoint lies in
    /// the ring.
    pub open spec fn wf(self) -> bool {
        &&& self.header.first_lsn + SIZE_OF_FILE_CHECKPOINT <= self.data.len()
        &&& self.checkpoint.checkpoint_lsn is Some
        &&& self.header.first_lsn <= self.checkpoint.checkpoint_lsn->Some_0 <= usize::MAX
    }
}

impl<'a> Redo<'a> {
    pub closed spec fn inv(&self) -> bool {
        &&& self@.wf()
        &&& self.size == self.buf@.len()
    }

    /// Parses the header and the checkpoint blocks of a log region; the
    /// caller says how many further `ib_logfile<N>` files lie beside it.
    pub fn from_buf(buf: &'a [u8], multiple_log_files: usize) -> (r: Result<Redo<'a>, Error>)
        ensures
            buf@.len() < START_OFFSET + SIZE_OF_FILE_CHECKPOINT ==> r == Err::<Redo<'a>, Error>(
                Error::ShortRead,
            ),
            buf@.len() >= START_OFFSET + SIZE_OF_FILE_CHECKPOINT && multiple_log_files > 0 ==> r
                == Err::<Redo<'a>, Error>(Error::UnsupportedMultiFile),
            buf@.len() >= START_OFFSET + SIZE_OF_FILE_CHECKPOINT && multiple_log_files == 0
                && header_fields(buf@) is Err ==> r == Err::<Redo<'a>, Error>(
                header_fields(buf@)->Err_0,
            ),
            buf@.len() >= START_OFFSET + SIZE_OF_FILE_CHECKPOINT && multiple_log_files == 0
                && header_fields(buf@) is Ok ==> ({
                let (version, first_lsn, creator, crc) = header_fields(buf@)->Ok_0;
                let cp = checkpoint_coordinate(
                    buf@,
                    version,
                    first_lsn,
                    utf8_lossy_of(creator),
                    0,
                );
                &&& cp is Err ==> r == Err::<Redo<'a>, Error>(cp->Err_0)
                &&& cp is Ok && first_lsn + SIZE_OF_FILE_CHECKPOINT > buf@.len() ==> r == Err::<
                    Redo<'a>,
                    Error,
                >(Error::InvalidData)
                &&& cp is Ok && first_lsn + SIZE_OF_FILE_CHECKPOINT <= buf@.len()
                    && cp->Ok_0.checkpoint_lsn->Some_0 > usize::MAX ==> r == Err::<Redo<'a>, Error>(
                    Error::PosOverflow,
                )
                &&& cp is Ok && first_lsn + SIZE_OF_FILE_CHECKPOINT <= buf@.len()
                    && cp->Ok_0.checkpoint_lsn->Some_0 <= usize::MAX ==> r is Ok
                    && r->Ok_0.inv() && r->Ok_0@.data == buf@ && r->Ok_0@.header.version == version
                    && r->Ok_0@.header.first_lsn == first_lsn && r->Ok_0@.header.crc == crc
                    && r->Ok_0@.header.creator@ == utf8_lossy_of(creator)
                    && r->Ok_0@.checkpoint == cp->Ok_0
            }),
    {
        let size = buf.len() as u64;
        if size < START_OFFSET + SIZE_OF_FILE_CHECKPOINT {
            return Err(Error::ShortRead);
        }
        if multiple_log_files > 0 {
            return Err(Error::UnsupportedMultiFile);
        }
        let hdr = Self::parse_header(buf)?;
        let checkpoint = Self::parse_header_checkpoint(buf, &hdr, multiple_log_files)?;
        if hdr.first_lsn > size - SIZE_OF_FILE_CHECKPOINT {
            return Err(Error::InvalidData);
        }
        match checkpoint.checkpoint_lsn {
            Some(lsn) => {
                if lsn > usize::MAX as u64 {
                    return Err(Error::PosOverflow);
                }
            },
            None => {
                return Err(Error::NoValidCheckpoint);
            },
        }
        Ok(Redo { buf, size, hdr, checkpoint })
    }

    pub fn buf(&self) -> (r: &'a [u8])
        ensures
            r@ == self@.data,
    {
        self.buf
    }

    pub fn size(&self) -> (r: u64)
        requires
            self.inv(),
        ensures
            r == self@.data.len(),
    {
        self.size
    }

    pub fn header(&self) -> (r: &RedoHeader)
        ensures
            *r == self@.header,
    {
        &self.hdr
    }

    pub fn checkpoint(&self) -> (r: &RedoCheckpointCoordinate)
        ensures
            *r == self@.checkpoint,
    {
        &self.checkpoint
    }

    /// Parses the 512-byte file header.
    pub fn parse_header(buf: &[u8]) -> (r: Result<RedoHeader, Error>)
        ensures
            header_fields(buf@) is Err ==> r == Err::<RedoHeader, Error>(header_fields(buf@)->Err_0),
            header_fields(buf@) is Ok ==> r is Ok && ({
                let (version, first_lsn, creator, crc) = header_fields(buf@)->Ok_0;
                &&& r->Ok_0.version == version
                &&& r->Ok_0.first_lsn == first_lsn
                &&& r->Ok_0.crc == crc
                &&& r->Ok_0.creator@ == utf8_lossy_of(creator)
                &&& (forall|i: int| 0 <= i < creator.len() ==> creator[i] < 0x80)
                    ==> r->Ok_0.creator@ == ascii_chars(creator)
            }),
    {
        if buf.len() < 512 {
            return Err(Error::ShortRead);
        }
        let version = read_u32_at(buf, LOG_HEADER_FORMAT);
        let first_lsn = read_u64_at(buf, LOG_HEADER_START_LSN);
        let n = trimmed_len(buf, LOG_HEADER_CREATOR, LOG_HEADER_CREATOR_END);
        let creator = lossy_string(&buf[LOG_HEADER_CREATOR..n]);
        let crc = read_u32_at(buf, LOG_HEADER_CRC);
        assert(field(buf@, 0, 4) =~= buf@.subrange(0, 4));
        // The original InnoDB redo log format does not have a checksum.
        if version != FORMAT_3_23 {
            let hdr_crc = crc32c(&buf[0..LOG_HEADER_CRC]);
            if hdr_crc != crc {
                return Err(Error::HeaderCrc);
            }
        }
        Ok(RedoHeader { version, first_lsn, creator, crc })
    }

    /// Parses the two checkpoint blocks and selects the live one: the valid
    /// block with the larger checkpoint LSN.
    pub fn parse_header_checkpoint(buf: &[u8], hdr: &RedoHeader, multiple_log_files: usize) -> (r:
        Result<RedoCheckpointCoordinate, Error>)
        ensures
            r == checkpoint_coordinate(
                buf@,
                hdr.version,
                hdr.first_lsn,
                hdr.creator@,
                multiple_log_files as int,
            ),
    {
        if buf.len() < CHECKPOINT_2 + 64 {
            return Err(Error::ShortRead);
        }
        if hdr.version & FORMAT_ENCRYPTED != 0 {
            return Err(Error::UnsupportedEncrypted);
        }
        if hdr.version != FORMAT_10_8 {
            return Err(Error::UnsupportedFormat);
        }
        if multiple_log_files > 0 {
            return Err(Error::UnsupportedMultiFile);
        }
        let second_hdr_u32 = read_u32_at(buf, LOG_HEADER_FORMAT + 4);
        if second_hdr_u32 != 0 || hdr.first_lsn < FIRST_LSN {
            return Err(Error::InvalidData);
        }
        // Encryption information follows the creator: the body is not read.
        if read_u32_at(buf, LOG_HEADER_CREATOR_END) != 0 {
            return Err(Error::UnsupportedEncrypted);
        }
        let (c1, v1) = read_block(buf, CHECKPOINT_1, hdr.first_lsn);
        let (c2, v2) = read_block(buf, CHECKPOINT_2, hdr.first_lsn);
        if !v1 && !v2 {
            return Err(Error::NoValidCheckpoint);
        }
        let second = v2 && (!v1 || c2.checkpoint_lsn >= c1.checkpoint_lsn);
        let live = if second {
            c2
        } else {
            c1
        };
        Ok(
            RedoCheckpointCoordinate {
                checkpoints: [c1, c2],
                checkpoint_lsn: Some(live.checkpoint_lsn),
                checkpoint_no: Some(
                    if second {
                        0
                    } else {
                        1
                    },
                ),
                end_lsn: live.end_lsn,
                encrypted: false,
                version: hdr.version,
                start_after_restore: starts_with_backup(&hdr.creator),
                valid: [v1, v2],
            },
        )
    }

    /// Reads the encryption information of a log header: whether it names
    /// the default encryption key.
    pub fn parse_crypt_header(hdr: &[u8]) -> (r: Result<bool, Error>)
        ensures
            hdr@.len() < 4 ==> r == Err::<bool, Error>(Error::ShortRead),
            hdr@.len() >= 4 ==> r == Ok::<bool, Error>(be_u32(hdr@) == LOG_DEFAULT_ENCRYPTION_KEY),
    {
        if hdr.len() < 4 {
            return Err(Error::ShortRead);
        }
        let encryption_key = read_u32_at(hdr, 0);
        assert(field(hdr@, 0, 4) =~= hdr@.subrange(0, 4));
        Ok(encryption_key == LOG_DEFAULT_ENCRYPTION_KEY)
    }

    /// A cursor at the live checkpoint LSN.
    pub fn reader(&self) -> (r: RedoReader<'a>)
        requires
            self.inv(),
        ensures
            r@ == (RingState {
                data: self@.data,
                header: self@.header.first_lsn as nat,
                pos: self@.checkpoint.checkpoint_lsn->Some_0 as nat,
            }),
            r@.wf(),
    {
        let lsn = match self.checkpoint.checkpoint_lsn {
            Some(lsn) => lsn,
            None => self.hdr.first_lsn,
        };
        RedoReader {
            reader: RingReader::buf_at(self.buf, self.hdr.first_lsn as usize, lsn as usize),
        }
    }

    /// Whether the redo log is in the latest format.
    pub fn is_latest(&self) -> (r: bool)
        ensures
            r == (self@.header.version & !FORMAT_ENCRYPTED == FORMAT_10_8),
    {
        is_latest(self.hdr.version)
    }

    /// Redo log capacity in bytes.
    pub fn capacity(&self) -> (r: Lsn)
        requires
            self.inv(),
        ensures
            r == self@.data.len() - self@.header.first_lsn,
    {
        self.size - self.hdr.first_lsn
    }

    /// The generation bit at a log sequence number.
    pub fn get_sequence_bit(&self, lsn: Lsn) -> (r: u8)
        requires
            self.inv(),
            lsn >= self@.header.first_lsn,
        ensures
            r == sequence_bit(
                self@.header.first_lsn as int,
                self@.data.len() - self@.header.first_lsn,
                lsn as int,
            ),
    {
        get_sequence_bit(self.hdr.first_lsn, self.capacity(), lsn)
    }
}

/// Whether a format word names the current format, encrypted or not.
fn is_latest(version: u32) -> (r: bool)
    ensures
        r == (version & !FORMAT_ENCRYPTED == FORMAT_10_8),
{
    version & (!FORMAT_ENCRYPTED) == FORMAT_10_8
}

/// A cursor over the chains of a log.
pub struct RedoReader<'a> {
    reader: RingReader<'a>,
}

impl<'a> View for RedoReader<'a> {
    type V = RingState;

    closed spec fn view(&self) -> RingState {
        self.reader@
    }
}

impl<'a> RedoReader<'a> {
    pub fn reader(&self) -> (r: &RingReader<'a>)
        ensures
            r@ == self@,
    {
        &self.reader
    }

    /// The next chain, or why there is none.
    pub fn parse_next(&mut self) -> (res: Result<MtrChain, Error>)
        requires
            old(self)@.wf(),
        ensures
            final(self)@.data == old(self)@.data,
            final(self)@.header == old(self)@.header,
            match chain_parse(old(self)@) {
                Ok(c) => res is Ok && res->Ok_0.lsn == c.lsn && res->Ok_0.len == c.len
                    && res->Ok_0.checksum == c.checksum && res->Ok_0.mtr@ == c.mtr && final(self)@.pos
                    == c.next,
                Err(e) => res == Err::<MtrChain, Error>(e),
            },
    {
        MtrChain::parse_next(&mut self.reader)
    }
}

/// The region after a fresh log for `lsn` is written over `data`: the header,
/// both checkpoint blocks, and the FILE_CHECKPOINT chain at `lsn` followed by
/// a NUL byte that ends the stream.
pub open spec fn fresh_log(data: Seq<u8>, header: int, lsn: u64, creator: Seq<u8>) -> Seq<u8> {
    let cap = data.len() - header;
    let d1 = ring_write(data, header, cap, 0, header_block(FIRST_LSN, creator));
    let d2 = ring_write(d1, header, cap, CHECKPOINT_1 as int, checkpoint_block(lsn, lsn));
    let d3 = ring_write(d2, header, cap, CHECKPOINT_2 as int, checkpoint_block(lsn, lsn));
    ring_write(d3, header, cap, lsn as int, file_checkpoint_chain(header, cap, lsn) + seq![0u8])
}

/// Writes a fresh log whose checkpoint and end are at `lsn` over the region
/// of a writer whose ring starts at `FIRST_LSN`.
pub fn write_log(w: &mut RingWriter, lsn: Lsn, creator: &str) -> (r: Result<(), Error>)
    requires
        old(w)@.wf(),
        old(w)@.header == FIRST_LSN,
    ensures
        final(w)@.header == old(w)@.header,
        final(w)@.data.len() == old(w)@.data.len(),
        lsn < FIRST_LSN || lsn > u64::MAX - 16 ==> r == Err::<(), Error>(Error::InvalidInput),
        !(lsn < FIRST_LSN || lsn > u64::MAX - 16) && lsn + 17 > usize::MAX ==> r == Err::<
            (),
            Error,
        >(Error::PosOverflow),
        !(lsn < FIRST_LSN || lsn > u64::MAX - 16) && lsn + 17 <= usize::MAX ==> r == Ok::<
            (),
            Error,
        >(()) && final(w)@.data == fresh_log(
            old(w)@.data,
            FIRST_LSN as int,
            lsn,
            creator.spec_bytes(),
        ),
{
    let ghost d0 = w@.data;
    let ghost h = w@.header as int;
    let ghost cap = w@.capacity();
    let capacity = (w.len() - w.header()) as u64;
    let mut chain: Vec<u8> = Vec::new();
    Mtr::build_file_checkpoint(&mut chain, FIRST_LSN, capacity, lsn)?;
    chain.push(0u8);
    if lsn > usize::MAX as u64 || (lsn as usize).checked_add(17).is_none() {
        return Err(Error::PosOverflow);
    }
    let header = RedoHeader::build_unencrypted_header_10_8(FIRST_LSN, creator);
    let checkpoint = RedoHeader::build_unencrypted_header_10_8_checkpoint(lsn, lsn);
    w.seek(SeekFrom::Start(0))?;
    w.write_all(header.as_slice())?;
    proof {
        crate::ring::lemma_ring_write_len(d0, h, cap, 0, header@);
    }
    w.seek(SeekFrom::Start(CHECKPOINT_1 as u64))?;
    w.write_all(checkpoint.as_slice())?;
    let ghost d2 = w@.data;
    proof {
        crate::ring::lemma_ring_write_len(
            ring_write(d0, h, cap, 0, header@),
            h,
            cap,
            CHECKPOINT_1 as int,
            checkpoint@,
        );
    }
    w.seek(SeekFrom::Start(CHECKPOINT_2 as u64))?;
    w.write_all(checkpoint.as_slice())?;
    proof {
        crate::ring::lemma_ring_write_len(d2, h, cap, CHECKPOINT_2 as int, checkpoint@);
    }
    w.seek(SeekFrom::Start(lsn))?;
    w.write_all(chain.as_slice())?;
    proof {
        crate::ring::lemma_ring_write_len(
            ring_write(d2, h, cap, CHECKPOINT_2 as int, checkpoint@),
            h,
            cap,
            lsn as int,
            chain@,
        );
        assert(chain@ =~= file_checkpoint_chain(h, cap, lsn) + seq![0u8]);
    }
    Ok(())
}

/// In a freshly written log, the chain at the checkpoint LSN parses to one
/// FILE_CHECKPOINT record carrying that LSN, 16 bytes long.
pub proof fn lemma_fresh_log_chain(data: Seq<u8>, lsn: u64, creator: Seq<u8>)
    requires
        data.len() >= FIRST_LSN + SIZE_OF_FILE_CHECKPOINT + 1,
        FIRST_LSN <= lsn <= u64::MAX - 16,
        lsn + 17 <= usize::MAX,
    ensures
        ({
            let s = RingState {
                data: fresh_log(data, FIRST_LSN as int, lsn, creator),
                header: FIRST_LSN as nat,
                pos: lsn as nat,
            };
            chain_parse(s) == Ok::<crate::mtr::ChainSpec, Error>(
                crate::mtr::ChainSpec {
                    lsn: lsn as int,
                    len: 16,
                    checksum: crc32c_of(crate::mtr::file_checkpoint_payload(lsn)),
                    mtr: seq![
                        Mtr {
                            space_id: 0,
                            page_no: 0,
                            op: crate::mtr0types::MtrOperation::FileCheckpoint,
                            file_checkpoint_lsn: Some(lsn),
                            marker: sequence_bit(FIRST_LSN as int, s.capacity(), lsn + 11),
                        },
                    ],
                    next: lsn + 16,
                },
            )
        }),
{
    let h = FIRST_LSN as int;
    let cap = data.len() - h;
    let d1 = ring_write(data, h, cap, 0, header_block(FIRST_LSN, creator));
    crate::ring::lemma_ring_write_len(data, h, cap, 0, header_block(FIRST_LSN, creator));
    let d2 = ring_write(d1, h, cap, CHECKPOINT_1 as int, checkpoint_block(lsn, lsn));
    crate::ring::lemma_ring_write_len(d1, h, cap, CHECKPOINT_1 as int, checkpoint_block(lsn, lsn));
    let d3 = ring_write(d2, h, cap, CHECKPOINT_2 as int, checkpoint_block(lsn, lsn));
    crate::ring::lemma_ring_write_len(d2, h, cap, CHECKPOINT_2 as int, checkpoint_block(lsn, lsn));
    let chain = file_checkpoint_chain(h, cap, lsn) + seq![0u8];
    crate::ring::lemma_ring_write_len(d3, h, cap, lsn as int, chain);
    crate::ring::lemma_ring_write_read(d3, h, cap, lsn as int, chain);
    let d4 = ring_write(d3, h, cap, lsn as int, chain);
    let s = RingState { data: d4, header: h as nat, pos: lsn as nat };
    let s0 = RingState { data: d4, header: h as nat, pos: 0 };
    assert(s.range(lsn as int, 16) =~= s0.range(lsn as int, 17).subrange(0, 16));
    assert(chain.subrange(0, 16) =~= file_checkpoint_chain(h, cap, lsn));
    crate::mtr::lemma_file_checkpoint_round_trip(s, lsn);
}

/// A freshly written log opens: its header names the current format and the
/// first LSN, and both checkpoint blocks are valid and at `lsn`, which
/// becomes the checkpoint LSN and the end LSN.
pub proof fn lemma_fresh_log_opens(data: Seq<u8>, lsn: u64, creator: Seq<u8>, name: Seq<char>)
    requires
        data.len() >= FIRST_LSN + SIZE_OF_FILE_CHECKPOINT + 1,
        FIRST_LSN <= lsn,
    ensures
        ({
            let b = fresh_log(data, FIRST_LSN as int, lsn, creator);
            &&& header_fields(b) is Ok
            &&& header_fields(b)->Ok_0.0 == FORMAT_10_8
            &&& header_fields(b)->Ok_0.1 == FIRST_LSN
            &&& block_valid(b, CHECKPOINT_1 as int, FIRST_LSN)
            &&& block_valid(b, CHECKPOINT_2 as int, FIRST_LSN)
            &&& checkpoint_coordinate(b, FORMAT_10_8, FIRST_LSN, name, 0) is Ok
            &&& checkpoint_coordinate(b, FORMAT_10_8, FIRST_LSN, name, 0)->Ok_0.checkpoint_lsn
                == Some(lsn)
            &&& checkpoint_coordinate(b, FORMAT_10_8, FIRST_LSN, name, 0)->Ok_0.end_lsn == lsn
        }),
{
    let h = FIRST_LSN as int;
    let cap = data.len() - h;
    let hb = header_block(FIRST_LSN, creator);
    let cb = checkpoint_block(lsn, lsn);
    let k = if creator.len() < 32 {
        creator.len() as int
    } else {
        32
    };
    crate::ring::lemma_ring_write_header(data, h, cap, 0, hb);
    let d1 = crate::mach::overwrite(data, 0, hb);
    crate::ring::lemma_ring_write_header(d1, h, cap, CHECKPOINT_1 as int, cb);
    let d2 = crate::mach::overwrite(d1, CHECKPOINT_1 as int, cb);
    crate::ring::lemma_ring_write_header(d2, h, cap, CHECKPOINT_2 as int, cb);
    let d3 = crate::mach::overwrite(d2, CHECKPOINT_2 as int, cb);
    let chain = file_checkpoint_chain(h, cap, lsn) + seq![0u8];
    let b = ring_write(d3, h, cap, lsn as int, chain);
    assert(b == fresh_log(data, h, lsn, creator));
    crate::ring::lemma_ring_write_len(d3, h, cap, lsn as int, chain);
    assert forall|i: int| 0 <= i < h implies b[i] == d3[i] by {
        crate::ring::lemma_ring_write_keeps_header(d3, h, cap, lsn as int, chain, i);
    }
    assert(b.subrange(0, 512) =~= hb);
    assert(field(b, CHECKPOINT_1 as int, 64) =~= cb);
    assert(field(b, CHECKPOINT_2 as int, 64) =~= cb);
    // the header block
    let bodyx = u32_be(FORMAT_10_8) + Seq::new(4, |i: int| 0u8) + u64_be(FIRST_LSN)
        + creator.subrange(0, k) + Seq::new((492 - k) as nat, |i: int| 0u8);
    assert(hb == bodyx + u32_be(crc32c_of(bodyx)));
    let body = hb.subrange(0, 508);
    assert(body =~= bodyx);
    assert(hb.subrange(508, 512) =~= u32_be(crc32c_of(body)));
    assert(hb.subrange(0, 4) =~= u32_be(FORMAT_10_8));
    assert((0u32 >> 24u32) as u8 == 0u8 && (0u32 >> 16u32) as u8 == 0u8 && (0u32 >> 8u32) as u8
        == 0u8 && 0u32 as u8 == 0u8) by (bit_vector);
    assert(u32_be(0) =~= seq![0u8, 0u8, 0u8, 0u8]);
    crate::mach::lemma_u32_round_trip(FORMAT_10_8);
    assert(be_u32(b) == be_u32(b.subrange(0, 4)));
    assert(b.subrange(0, 508) =~= body);
    assert(field(b, 508, 4) =~= u32_be(crc32c_of(body)));
    crate::mach::lemma_u32_round_trip(crc32c_of(body));
    assert(field(b, 8, 8) =~= u64_be(FIRST_LSN));
    crate::mach::lemma_u64_round_trip(FIRST_LSN);
    assert(field(b, 4, 4) =~= u32_be(0));
    assert(field(b, 48, 4) =~= u32_be(0));
    crate::mach::lemma_u32_round_trip(0);
    assert((FORMAT_10_8 & FORMAT_ENCRYPTED) == 0) by (bit_vector);
    // the checkpoint blocks
    let cbodyx = u64_be(lsn) + u64_be(lsn) + Seq::new(44, |i: int| 0u8);
    assert(cb == cbodyx + u32_be(crc32c_of(cbodyx)));
    let cbody = cb.subrange(0, 60);
    assert(cbody =~= cbodyx);
    assert(cb.subrange(60, 64) =~= u32_be(crc32c_of(cbody)));
    assert(cbody.subrange(0, 8) =~= u64_be(lsn));
    assert(cbody.subrange(8, 16) =~= u64_be(lsn));
    crate::mach::lemma_u64_round_trip(lsn);
    crate::mach::lemma_u32_round_trip(crc32c_of(cbody));
    assert(field(b, CHECKPOINT_1 as int, 8) =~= u64_be(lsn));
    assert(field(b, CHECKPOINT_1 + 8, 8) =~= u64_be(lsn));
    assert(field(b, CHECKPOINT_1 + 16, 44) =~= Seq::new(44, |i: int| 0u8));
    assert(field(b, CHECKPOINT_1 as int, 60) =~= cbody);
    assert(field(b, CHECKPOINT_1 + 60, 4) =~= u32_be(crc32c_of(cbody)));
    assert(field(b, CHECKPOINT_2 as int, 8) =~= u64_be(lsn));
    assert(field(b, CHECKPOINT_2 + 8, 8) =~= u64_be(lsn));
    assert(field(b, CHECKPOINT_2 + 16, 44) =~= Seq::new(44, |i: int| 0u8));
    assert(field(b, CHECKPOINT_2 as int, 60) =~= cbody);
    assert(field(b, CHECKPOINT_2 + 60, 4) =~= u32_be(crc32c_of(cbody)));
}

proof fn lemma_trim_zeros(s: Seq<u8>, n: nat)
    requires
        s.len() == 0 || s.last() != 0,
    ensures
        trim_nul_end(s + Seq::new(n, |i: int| 0u8)) == s,
    decreases n,
{
    if n == 0 {
        assert(s + Seq::new(0, |i: int| 0u8) =~= s);
    } else {
        let t = s + Seq::new(n, |i: int| 0u8);
        assert(t.drop_last() =~= s + Seq::new((n - 1) as nat, |i: int| 0u8));
        lemma_trim_zeros(s, (n - 1) as nat);
    }
}

/// A freshly built header parses back to the current format, the same start
/// LSN, the same creator bytes (at most 32, not ending in NUL) and the CRC
/// stored in it.
pub proof fn lemma_header_round_trip(first_lsn: u64, creator: Seq<u8>)
    requires
        creator.len() <= 32,
        creator.len() == 0 || creator.last() != 0,
    ensures
        header_fields(header_block(first_lsn, creator)) == Ok::<(u32, u64, Seq<u8>, u32), Error>(
            (
                FORMAT_10_8,
                first_lsn,
                creator,
                crc32c_of(header_block(first_lsn, creator).subrange(0, 508)),
            ),
        ),
{
    let b = header_block(first_lsn, creator);
    let k = creator.len() as int;
    let body = u32_be(FORMAT_10_8) + Seq::new(4, |i: int| 0u8) + u64_be(first_lsn)
        + creator.subrange(0, k) + Seq::new((492 - k) as nat, |i: int| 0u8);
    assert(creator.subrange(0, k) =~= creator);
    assert(b.subrange(0, 508) =~= body);
    let crc = crc32c_of(body);
    crate::mach::lemma_u32_round_trip(FORMAT_10_8);
    crate::mach::lemma_u32_round_trip(crc);
    crate::mach::lemma_u64_round_trip(first_lsn);
    assert(b.subrange(0, 4) =~= u32_be(FORMAT_10_8));
    assert(be_u32(b) == be_u32(b.subrange(0, 4)));
    assert(field(b, 508, 4) =~= u32_be(crc));
    assert(field(b, 8, 8) =~= u64_be(first_lsn));
    assert(b.subrange(16, 48) =~= creator + Seq::new((32 - k) as nat, |i: int| 0u8));
    lemma_trim_zeros(creator, (32 - k) as nat);
}

/// Of two valid checkpoint blocks with LSNs `a` and `c`, an opened log takes
/// the larger one as its checkpoint LSN.
pub proof fn lemma_checkpoint_selection(
    b: Seq<u8>,
    version: u32,
    first_lsn: u64,
    creator: Seq<char>,
    a: u64,
    c: u64,
)
    requires
        checkpoint_coordinate(b, version, first_lsn, creator, 0) is Ok,
        block_valid(b, CHECKPOINT_1 as int, first_lsn),
        block_valid(b, CHECKPOINT_2 as int, first_lsn),
        block_at(b, CHECKPOINT_1 as int).checkpoint_lsn == a,
        block_at(b, CHECKPOINT_2 as int).checkpoint_lsn == c,
    ensures
        checkpoint_coordinate(b, version, first_lsn, creator, 0)->Ok_0.checkpoint_lsn == Some(
            if a >= c {
                a
            } else {
                c
            },
        ),
{
}

} // verus!
