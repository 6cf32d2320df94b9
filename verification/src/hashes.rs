//! The two digests the protocol is built on.
//!
//! Every signed message, Merkle node and burn-record hash in this crate is a
//! SHA-256 or Keccak-256 digest. The digests themselves are outside
//! computations; their results are given names here and everything the
//! protocol concludes from a digest is proved from those names.

use vstd::prelude::*;

verus! {

/// The SHA-256 digest of `data`, named; the result depends on the input
/// bytes alone.
pub uninterp spec fn sha256_of(data: Seq<u8>) -> Seq<u8>;

/// The Keccak-256 digest of `data`, named; the result depends on the input
/// bytes alone.
pub uninterp spec fn keccak256_of(data: Seq<u8>) -> Seq<u8>;

/// Relies on `solana_program::hash::hash`: the SHA-256 digest of the input
/// bytes, documented to be exactly 32 bytes long.
#[verifier::external_body]
pub fn sha256(data: &[u8]) -> (r: Vec<u8>)
    ensures
        r@ == sha256_of(data@),
        r@.len() == 32,
{
    solana_program::hash::hash(data).to_bytes().to_vec()
}

/// Relies on `solana_program::keccak::hash`: the Keccak-256 digest of the
/// input bytes, documented to be exactly 32 bytes long.
#[verifier::external_body]
pub fn keccak256(data: &[u8]) -> (r: Vec<u8>)
    ensures
        r@ == keccak256_of(data@),
        r@.len() == 32,
{
    solana_program::keccak::hash(data).to_bytes().to_vec()
}

} // verus!
