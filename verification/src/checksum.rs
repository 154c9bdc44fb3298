//! CRC32 integrity checking.
//!
//! GPT stores a CRC32 over the header bytes (with the checksum field zeroed)
//! and one over the partition-entry array; both use the classic IEEE
//! polynomial.
use vstd::prelude::*;

verus! {

/// The CRC32 (IEEE polynomial, reflected, final xor) of a byte sequence.
/// The value is a function of the bytes alone.
pub uninterp spec fn crc32_of(data: Seq<u8>) -> u32;

/// Relies on `crc::Crc::<u32>::checksum` with the `CRC_32_ISO_HDLC`
/// algorithm from the crc catalog: the classic IEEE CRC32, computed from the
/// input bytes alone.
#[verifier::external_body]
pub(crate) fn crc32(data: &[u8]) -> (r: u32)
    ensures
        r == crc32_of(data@),
{
    crc::Crc::<u32>::new(&crc::CRC_32_ISO_HDLC).checksum(data)
}

} // verus!
