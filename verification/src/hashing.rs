//! The digest function of the ledger: Keccak-256.
//!
//! The digest is computed by the `sha3` crate. Nothing about its value is
//! proved here; contracts speak of it by the name [`keccak256_digest`].

use digest::Digest;
use sha3::Keccak256;
use vstd::prelude::*;

verus! {

/// The Keccak-256 digest of `data`, as `sha3::Keccak256` computes it.
pub uninterp spec fn keccak256_digest(data: Seq<u8>) -> Seq<u8>;

/// Trusted: calls `Digest::digest` of `sha3::Keccak256` on `data`. The
/// contract only gives the 32 bytes it returns their name.
#[verifier::external_body]
pub(crate) fn keccak256(data: &[u8]) -> (out: [u8; 32])
    ensures
        out@ == keccak256_digest(data@),
{
    Keccak256::digest(data).into()
}

} // verus!
