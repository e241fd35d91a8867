//! The seal: four bytes that name the version of the wrapping circuit, then the
//! 256 bytes of the Groth16 proof.

use vstd::prelude::*;
use vstd::slice::slice_to_vec;

verus! {

/// The selector of the wrapping circuit version that the verifier accepts.
pub const RISC0_SELECTOR: [u8; 4] = [0x31, 0x0f, 0xe5, 0x98];

/// Length of a seal in bytes: the selector and a Groth16 proof.
pub const SEAL_BYTES: usize = 260;

/// The seal of a proof under a selector: `selector ‖ proof`.
pub open spec fn seal_layout(selector: Seq<u8>, proof: Seq<u8>) -> Seq<u8> {
    selector + proof
}

/// A seal is valid when it is exactly 260 bytes long and starts with the
/// accepted selector.
pub open spec fn is_valid_seal(seal: Seq<u8>) -> bool {
    seal.len() == 260 && seal.subrange(0, 4) == RISC0_SELECTOR@
}

/// Serializes a seal for on-chain submission: `selector ‖ proof`.
pub fn serialize_seal(selector: &[u8; 4], groth16_proof: &[u8]) -> (seal: Vec<u8>)
    ensures
        seal@ == seal_layout(selector@, groth16_proof@),
{
    let mut seal = slice_to_vec(selector.as_slice());
    seal.extend_from_slice(groth16_proof);
    seal
}

/// Tells whether a seal has the right length and the accepted selector.
pub fn validate_seal(seal: &[u8]) -> (valid: bool)
    ensures
        valid == is_valid_seal(seal@),
{
    if seal.len() < 4 {
        return false;
    }
    let same = seal[0] == RISC0_SELECTOR[0] && seal[1] == RISC0_SELECTOR[1] && seal[2]
        == RISC0_SELECTOR[2] && seal[3] == RISC0_SELECTOR[3];
    proof {
        if same {
            assert(seal@.subrange(0, 4) =~= RISC0_SELECTOR@);
        } else {
            let head = seal@.subrange(0, 4);
            assert(head[0] == seal@[0] && head[1] == seal@[1] && head[2] == seal@[2] && head[3]
                == seal@[3]);
        }
    }
    same && seal.len() == 260
}

/// A proof wrapped under the accepted selector is a valid seal exactly when
/// the proof is 256 bytes long.
pub proof fn lemma_sealed_proof_is_valid(proof: Seq<u8>)
    ensures
        is_valid_seal(seal_layout(RISC0_SELECTOR@, proof)) <==> proof.len() == 256,
{
    let seal = seal_layout(RISC0_SELECTOR@, proof);
    assert(seal.subrange(0, 4) =~= RISC0_SELECTOR@);
}

} // verus!
