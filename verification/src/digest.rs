//! Content digests.
use vstd::prelude::*;
use crate::common::Hash32;

verus! {

/// The SHA-256 digest of a byte string.
pub uninterp spec fn sha256_digest(data: Seq<u8>) -> Seq<u8>;

/// SHA-256 of `data`, computed by the `sha2` crate's `Sha256::digest`.
/// Trusted: the result is `sha256_digest` of the input bytes, so equal
/// inputs give equal digests; nothing more about the hash is claimed.
#[verifier::external_body]
pub(crate) fn sha256(data: &[u8]) -> (r: Hash32)
    ensures
        r@ == sha256_digest(data@),
{
    let out = <sha2::Sha256 as sha2::Digest>::digest(data);
    out.into()
}

} // verus!
