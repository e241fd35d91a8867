//! The proof as `bb` writes it: a count of public inputs in four bytes,
//! big-endian, then that many public inputs of 32 bytes each, then the proof's
//! own field elements.

use crate::field::{be_value, element_bytes};
use vstd::prelude::*;
use vstd::slice::slice_to_vec;

verus! {

/// The number of public inputs that the header of a proof claims.
pub open spec fn claimed_inputs(proof: Seq<u8>) -> nat
    recommends
        proof.len() >= 4,
{
    be_value(proof.subrange(0, 4))
}

/// The number of public inputs that a proof holds: as many as its header
/// claims, but no more than it has room for after the header. A proof too
/// short for a header holds none.
pub open spec fn held_inputs(proof: Seq<u8>) -> nat {
    if proof.len() < 4 {
        0
    } else {
        let room = ((proof.len() - 4) / 32) as nat;
        if claimed_inputs(proof) <= room {
            claimed_inputs(proof)
        } else {
            room
        }
    }
}

/// The bytes of the public input at `index`.
pub open spec fn input_at(proof: Seq<u8>, index: int) -> Seq<u8> {
    proof.subrange(4 + 32 * index, 4 + 32 * index + 32)
}

/// The public inputs that a proof holds, in order.
pub open spec fn public_inputs_of(proof: Seq<u8>) -> Seq<Seq<u8>> {
    Seq::new(held_inputs(proof), |i: int| input_at(proof, i))
}

/// The number that four bytes denote, most significant first.
pub fn u32_from_be_bytes(b0: u8, b1: u8, b2: u8, b3: u8) -> (n: u32)
    ensures
        n as nat == be_value(seq![b0, b1, b2, b3]),
{
    let n = (b0 as u32) * 16777216 + (b1 as u32) * 65536 + (b2 as u32) * 256 + (b3 as u32);
    proof {
        let s = seq![b0, b1, b2, b3];
        let s3 = s.drop_last();
        let s2 = s3.drop_last();
        let s1 = s2.drop_last();
        assert(s1.drop_last() =~= Seq::<u8>::empty());
        assert(be_value(s1.drop_last()) == 0);
        assert(be_value(s1) == b0 as nat);
        assert(be_value(s2) == 256 * be_value(s1) + b1 as nat);
        assert(be_value(s3) == 256 * be_value(s2) + b2 as nat);
        assert(be_value(s) == 256 * be_value(s3) + b3 as nat);
    }
    n
}

/// Extracts the public inputs from a proof. Reads as many as the header
/// claims and stops at the last one that the proof holds in full.
pub fn extract_public_inputs(proof_bytes: &[u8]) -> (inputs: Vec<[u8; 32]>)
    ensures
        element_bytes(inputs@) == public_inputs_of(proof_bytes@),
{
    let mut inputs: Vec<[u8; 32]> = Vec::new();
    if proof_bytes.len() < 4 {
        assert(element_bytes(inputs@) =~= public_inputs_of(proof_bytes@));
        return inputs;
    }
    let count = u32_from_be_bytes(proof_bytes[0], proof_bytes[1], proof_bytes[2], proof_bytes[3]);
    assert(proof_bytes@.subrange(0, 4) =~= seq![
        proof_bytes@[0],
        proof_bytes@[1],
        proof_bytes@[2],
        proof_bytes@[3],
    ]);
    let len = proof_bytes.len();
    let room = (len - 4) / 32;
    let mut i: usize = 0;
    while i < room && (i as u64) < (count as u64)
        invariant
            len == proof_bytes@.len(),
            len >= 4,
            room == (len - 4) / 32,
            count as nat == claimed_inputs(proof_bytes@),
            i <= room,
            i <= count,
            inputs@.len() == i,
            forall|k: int| 0 <= k < i ==> (#[trigger] inputs@[k])@ == input_at(proof_bytes@, k),
        decreases room - i,
    {
        assert(i * 32 + 36 <= len);
        let offset = 4 + i * 32;
        let mut input = [0u8; 32];
        let mut j: usize = 0;
        while j < 32
            invariant
                j <= 32,
                len == proof_bytes@.len(),
                offset == 4 + i * 32,
                offset + 32 <= len,
                forall|k: int| 0 <= k < j ==> input@[k] == proof_bytes@[offset + k],
            decreases 32 - j,
        {
            input[j] = proof_bytes[offset + j];
            j += 1;
        }
        assert(input@ =~= input_at(proof_bytes@, i as int));
        inputs.push(input);
        i += 1;
    }
    assert(element_bytes(inputs@) =~= public_inputs_of(proof_bytes@));
    inputs
}

/// Converts a proof to the form that the on-chain verifier reads: the bytes
/// as they are. The verification key travels apart from it.
pub fn to_soroban_format(proof_bytes: &[u8], _vk_bytes: &[u8]) -> (out: Vec<u8>)
    ensures
        out@ == proof_bytes@,
{
    slice_to_vec(proof_bytes)
}

} // verus!
