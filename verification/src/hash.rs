//! Content fingerprinting of IPL images via CRC-32.

use vstd::prelude::*;

verus! {

pub uninterp spec fn crc32_of(data: Seq<u8>) -> u32;

/// Relies on crc32fast::hash: the CRC-32 (reflected polynomial) of the byte
/// slice, a function of the byte contents alone.
#[verifier::external_body]
pub(crate) fn crc32(data: &[u8]) -> (r: u32)
    ensures
        r == crc32_of(data@),
{
    crc32fast::hash(data)
}

} // verus!
