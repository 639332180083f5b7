//! The cryptographic digest that seals a block.

use sha2::{Digest, Sha256};
use vstd::prelude::*;

verus! {

/// The SHA-256 digest of `data`, as the `sha2` crate computes it.
pub uninterp spec fn sha256(data: Seq<u8>) -> Seq<u8>;

/// The width of a SHA-256 digest, in bytes.
pub const DIGEST_BYTES: usize = 32;

/// Calls `sha2::Sha256::digest` on `data` and copies the digest out.
///
/// Trusted, not proved: the digest depends on the bytes of `data` alone, and
/// it is 32 bytes long, the output size that `sha2` fixes for SHA-256.
#[verifier::external_body]
pub(crate) fn sha256_digest(data: &[u8]) -> (digest: Vec<u8>)
    ensures
        digest@ == sha256(data@),
        digest@.len() == DIGEST_BYTES,
{
    Sha256::digest(data).to_vec()
}

} // verus!
