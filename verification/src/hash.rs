//! The Keccak-256 hash function.

use vstd::prelude::*;

verus! {

/// The Keccak-256 digest of `data`, as the `keccak-hash` crate computes it.
pub uninterp spec fn keccak256(data: Seq<u8>) -> Seq<u8>;

/// Calls `keccak_hash::keccak`. That function feeds its argument to a
/// Keccak-256 sponge and returns the 32 bytes that come out, so the result
/// depends on the bytes of `data` alone; the contract gives that result its
/// name and claims nothing else of it.
#[verifier::external_body]
pub(crate) fn keccak(data: &[u8]) -> (digest: [u8; 32])
    ensures
        digest@ == keccak256(data@),
{
    keccak_hash::keccak(data).0
}

} // verus!
