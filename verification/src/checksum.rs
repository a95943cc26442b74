//! The CRC-32 that guards a chunk's type and data.

use vstd::prelude::*;

verus! {

/// The CRC-32/IEEE checksum of `bytes`: what `crc::crc32::checksum_ieee`
/// returns for them. Only the name is known here, not the arithmetic
/// behind it.
pub uninterp spec fn crc32_ieee(bytes: Seq<u8>) -> u32;

/// Computes the checksum with `crc::crc32::checksum_ieee`. That function
/// reads nothing but the bytes it is given and always returns, so its
/// result is the checksum that `crc32_ieee` names for them. This is taken
/// on trust from the `crc` crate.
#[verifier::external_body]
pub(crate) fn checksum_ieee(bytes: &[u8]) -> (sum: u32)
    ensures
        sum == crc32_ieee(bytes@),
{
    crc::crc32::checksum_ieee(bytes)
}

} // verus!
