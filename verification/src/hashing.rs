//! The one place where the games lean on hashing code that is not
//! verified here.

use vstd::prelude::*;

verus! {

/// The Blake2b digest of `data`, 32 bytes long.
pub uninterp spec fn blake2_256_digest(data: Seq<u8>) -> Seq<u8>;

/// Calls `hash` of `sp_core::Blake2Hasher`, which hashes `data` with
/// Blake2b to 32 bytes. Taken on trust: the digest depends on the bytes of
/// `data` alone.
#[verifier::external_body]
pub(crate) fn blake2_256(data: &[u8]) -> (digest: [u8; 32])
    ensures
        digest@ == blake2_256_digest(data@),
{
    <sp_core::Blake2Hasher as sp_core::Hasher>::hash(data).to_fixed_bytes()
}

} // verus!
