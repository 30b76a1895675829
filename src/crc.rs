use vstd::prelude::*;

verus! {

/// The CRC-32C (Castagnoli) checksum of a byte string.
pub uninterp spec fn crc32c_of(data: Seq<u8>) -> u32;

/// Relies on `crc32c::crc32c`: the CRC-32C of the bytes, a function of them alone.
#[verifier::external_body]
pub(crate) fn crc32c(data: &[u8]) -> (r: u32)
    ensures
        r == crc32c_of(data@),
{
    crc32c::crc32c(data)
}

} // verus!
