//! The one-way digest that event tags are cut from.

use vstd::prelude::*;

verus! {

/// The SHA-256 digest of a byte string. The digest is a pure function of the
/// input bytes, but its value is far too intricate to state here; contracts
/// speak of it only through this name.
pub uninterp spec fn sha256_of(input: Seq<u8>) -> Seq<u8>;

/// Relies on `anchor_syn::hash::hash`: a SHA-256 digest of the input, a pure
/// function of the input bytes alone, always exactly 32 bytes long.
#[verifier::external_body]
pub(crate) fn sha256(input: &Vec<u8>) -> (digest: Vec<u8>)
    ensures
        digest@ == sha256_of(input@),
        digest@.len() == 32,
{
    anchor_syn::hash::hash(input.as_slice()).to_bytes().to_vec()
}

} // verus!
