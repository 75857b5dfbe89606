//! The two hash functions that the image formats use.

use sha2::{Digest, Sha256};
use vstd::prelude::*;

verus! {

/// The SHA-256 digest of a byte string.
pub uninterp spec fn sha256(data: Seq<u8>) -> Seq<u8>;

/// The SM3 digest of a byte string.
pub uninterp spec fn sm3(data: Seq<u8>) -> Seq<u8>;

/// Calls `Sha256::new`, `update` and `finalize` of the sha2 crate. Trusted: the result is
/// the SHA-256 digest of `data`, which has 32 bytes.
#[verifier::external_body]
pub(crate) fn sha_256(data: &[u8]) -> (digest: Vec<u8>)
    ensures
        digest@ == sha256(data@),
        digest@.len() == 32,
{
    let mut hasher = Sha256::new();
    hasher.update(data);
    hasher.finalize().to_vec()
}

/// Calls `Sm3Hash::new` and `get_hash` of libsm. Trusted: the result is the SM3 digest of
/// `data`, which has 32 bytes.
#[verifier::external_body]
pub(crate) fn sm3_hash(data: &[u8]) -> (digest: Vec<u8>)
    ensures
        digest@ == sm3(data@),
        digest@.len() == 32,
{
    libsm::sm3::hash::Sm3Hash::new(data).get_hash().to_vec()
}

} // verus!
