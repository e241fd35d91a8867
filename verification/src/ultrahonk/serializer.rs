//! The verification key as `bb` writes it is the form that the on-chain
//! verifier reads.

use vstd::prelude::*;
use vstd::slice::slice_to_vec;

verus! {

/// Serializes a verification key for on-chain storage: the bytes as they are.
pub fn serialize_vk_for_soroban(vk_bytes: &[u8]) -> (out: Vec<u8>)
    ensures
        out@ == vk_bytes@,
{
    slice_to_vec(vk_bytes)
}

} // verus!
