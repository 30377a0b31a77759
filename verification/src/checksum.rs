//! The CRC-32 checksum used by every framed format in the engine.

use vstd::prelude::*;

verus! {

/// The CRC-32 (IEEE) checksum of a byte sequence; a function of the
/// bytes alone.
pub uninterp spec fn crc32_of(bytes: Seq<u8>) -> u32;

/// Relies on crc32fast::hash: the CRC-32 (IEEE) checksum of the bytes,
/// a function of the input alone.
#[verifier::external_body]
pub fn crc32(data: &[u8]) -> (r: u32)
    ensures
        r == crc32_of(data@),
{
    crc32fast::hash(data)
}

} // verus!
