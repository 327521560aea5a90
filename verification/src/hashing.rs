//! The hash of a payload.

use blake2::digest::consts::U32;
use blake2::{Blake2b, Digest};
use vstd::prelude::*;

verus! {

/// The BLAKE2b hash of 256 bits of `data`, as the blake2 crate computes it.
pub uninterp spec fn blake2b_256(data: Seq<u8>) -> Seq<u8>;

/// Calls `Digest::digest` of `Blake2b<U32>`, the BLAKE2b hash with an
/// output of 32 bytes, and copies the output into an array. The hash is a
/// function of the data alone: the contract gives it that name and claims
/// no more.
#[verifier::external_body]
pub(crate) fn blake2b_hash(data: &[u8]) -> (hash: [u8; 32])
    ensures
        hash@ == blake2b_256(data@),
{
    Blake2b::<U32>::digest(data).into()
}

} // verus!
