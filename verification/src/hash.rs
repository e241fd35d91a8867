//! SHA-256, by the `sha2` crate.

use sha2::{Digest, Sha256};
use vstd::prelude::*;

verus! {

/// The SHA-256 digest of a byte string: 32 bytes.
pub uninterp spec fn sha256_digest(data: Seq<u8>) -> Seq<u8>;

/// `Sha256` of `sha2`, fed with `data` at once: the digest of `data`.
#[verifier::external_body]
pub(crate) fn sha256(data: &[u8]) -> (digest: [u8; 32])
    ensures
        digest@ == sha256_digest(data@),
{
    let mut hasher = Sha256::new();
    hasher.update(data);
    hasher.finalize().into()
}

/// A digest that names one verification for good, so that no proof is
/// accepted twice: the SHA-256 digest of the proof followed by its public
/// inputs.
pub fn compute_nullifier(proof: &[u8], public_inputs: &[u8]) -> (nullifier: [u8; 32])
    ensures
        nullifier@ == sha256_digest(proof@ + public_inputs@),
{
    let mut data: Vec<u8> = Vec::new();
    data.extend_from_slice(proof);
    data.extend_from_slice(public_inputs);
    assert(data@ =~= proof@ + public_inputs@);
    sha256(data.as_slice())
}

} // verus!
