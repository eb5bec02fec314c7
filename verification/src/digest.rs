//! SHA-256, as computed by the `sha2` crate.
use sha2::Digest;
use vstd::prelude::*;

verus! {

/// The SHA-256 digest of `data`.
pub uninterp spec fn sha256(data: Seq<u8>) -> Seq<u8>;

/// Calls `sha2::Sha256::digest` (the `Digest` trait of `digest` 0.9) on `data`
/// and turns the 32-byte `GenericArray` it returns into an array.
/// Trusted: the result is taken to be the SHA-256 digest of exactly the bytes
/// of `data`; nothing more is claimed of it.
#[verifier::external_body]
pub(crate) fn sha256_digest(data: &[u8]) -> (hash: [u8; 32])
    ensures
        hash@ == sha256(data@),
{
    sha2::Sha256::digest(data).into()
}

} // verus!
