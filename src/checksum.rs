use vstd::prelude::*;

verus! {

/// The RFC 1071 one's-complement checksum that pnet computes over `data`,
/// leaving out the 16-bit word at index `skipword`.
pub uninterp spec fn pnet_checksum(data: Seq<u8>, skipword: usize) -> u16;

/// Relies on `pnet::util::checksum`: the RFC 1071 checksum of `data`, with the
/// word at `skipword` left out, as a function of its arguments alone. It sums
/// into a `u32`, which the bound on the length keeps from overflowing.
#[verifier::external_body]
pub(crate) fn checksum(data: &[u8], skipword: usize) -> (r: u16)
    requires
        data@.len() <= 65536,
    ensures
        r == pnet_checksum(data@, skipword),
{
    pnet::util::checksum(data, skipword)
}

} // verus!
