//! The Keccak-256 hash.

use vstd::prelude::*;

verus! {

/// The Keccak-256 hash of `data`, as `ethers::utils::keccak256` computes it:
/// thirty-two bytes.
pub uninterp spec fn keccak256_of(data: Seq<u8>) -> Seq<u8>;

/// Calls `ethers::utils::keccak256`.
///
/// Trusted: the hash depends on the bytes alone, and is named
/// [`keccak256_of`].
#[verifier::external_body]
pub(crate) fn keccak256(data: &[u8]) -> (digest: [u8; 32])
    ensures
        digest@ == keccak256_of(data@),
{
    ethers::utils::keccak256(data)
}

} // verus!
