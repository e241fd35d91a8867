//! The host binary: how it is run to make a proof, and how what it leaves
//! is read.

use crate::error::{Failure, StellarZkError};
use crate::field::element_bytes;
use crate::hash::{sha256, sha256_digest};
use crate::hexfmt::{hex_bytes, hex_complaint, hex_decode, is_hex_text};
use crate::path::{join, joined};
use crate::process::{Blame, Telling, TellingModel, ToolCall, ToolCallModel};
use crate::text::{concat, decimal_text, trim, trimmed, u64_to_string};
use vstd::prelude::*;

verus! {

/// What the host binary leaves of a proof.
#[derive(Debug)]
pub struct ReceiptOutput {
    /// The seal: four bytes of selector and the 256 bytes of the Groth16 proof.
    pub seal: Vec<u8>,
    /// The journal: what the guest program made public.
    pub journal: Vec<u8>,
    /// The image ID, which names the guest program.
    pub image_id: [u8; 32],
}

/// The host binary of a project.
pub open spec fn host_binary_of(project: Seq<char>) -> Seq<char> {
    joined(project, "programs/host/target/release/host"@)
}

/// The run of the host binary on an input: in the directory of the project,
/// with the input named in its environment.
pub open spec fn run_host_call(project: Seq<char>, input: Seq<char>) -> ToolCallModel {
    ToolCallModel {
        program: host_binary_of(project),
        args: Seq::empty(),
        cwd: Some(project),
        env: seq![("RISC0_INPUT"@, input)],
    }
}

/// How the failures of the host binary are told.
pub open spec fn run_host_telling() -> TellingModel {
    TellingModel {
        blame: Blame::Proof,
        failed: "host binary failed: "@,
        unstarted: "failed to run host binary: "@,
        tool: Seq::empty(),
        install: Seq::empty(),
    }
}

/// The image ID that a text holds: 32 bytes in hexadecimal, with white
/// space around them or none.
pub open spec fn image_id_of(text: Seq<char>) -> Result<Seq<u8>, Failure> {
    let digits = trimmed(text);
    if !is_hex_text(digits) {
        Err(Failure::ProofGeneration("invalid image_id hex: "@ + hex_complaint(digits)))
    } else if hex_bytes(digits).len() != 32 {
        Err(
            Failure::ProofGeneration(
                "image_id must be 32 bytes, got "@ + decimal_text(hex_bytes(digits).len()),
            ),
        )
    } else {
        Ok(hex_bytes(digits))
    }
}

/// The public inputs of a proof: the image ID, then the digest of the journal.
pub open spec fn risc0_inputs(image_id: Seq<u8>, journal: Seq<u8>) -> Seq<Seq<u8>> {
    seq![image_id, sha256_digest(journal)]
}

impl ReceiptOutput {
    /// The public inputs that the verifier is given with the seal: the
    /// image ID, then the SHA-256 digest of the journal.
    pub fn public_inputs(&self) -> (inputs: Vec<[u8; 32]>)
        ensures
            element_bytes(inputs@) == risc0_inputs(self.image_id@, self.journal@),
    {
        let digest = sha256(self.journal.as_slice());
        let mut inputs: Vec<[u8; 32]> = Vec::new();
        inputs.push(self.image_id);
        inputs.push(digest);
        assert(element_bytes(inputs@) =~= risc0_inputs(self.image_id@, self.journal@));
        inputs
    }
}

/// The run of the host binary that makes a proof for the input at
/// `input_path`. It leaves the seal, the journal and the image ID in the
/// directory of the proofs.
pub fn run_host(project_dir: &str, input_path: &str) -> (call: ToolCall)
    ensures
        call@ == run_host_call(project_dir@, input_path@),
{
    let mut env: Vec<(String, String)> = Vec::new();
    env.push(("RISC0_INPUT".to_owned(), input_path.to_owned()));
    let call = ToolCall {
        program: join(project_dir, "programs/host/target/release/host"),
        args: Vec::new(),
        cwd: Some(project_dir.to_owned()),
        env,
    };
    assert(call@.args =~= Seq::empty());
    assert(call@.env =~= seq![("RISC0_INPUT"@, input_path@)]);
    call
}

/// How the failures of the host binary are told.
pub fn host_telling() -> (telling: Telling<'static>)
    ensures
        telling@ == run_host_telling(),
{
    proof {
        reveal_strlit("");
        assert(""@ =~= Seq::<char>::empty());
    }
    Telling {
        blame: Blame::Proof,
        failed: "host binary failed: ",
        unstarted: "failed to run host binary: ",
        tool: "",
        install: "",
    }
}

/// Reads the image ID from the text that the host binary left.
pub fn read_image_id(text: &str) -> (r: Result<[u8; 32], StellarZkError>)
    ensures
        match r {
            Ok(id) => image_id_of(text@) == Ok::<Seq<u8>, Failure>(id@),
            Err(error) => image_id_of(text@) == Err::<Seq<u8>, Failure>(error@),
        },
{
    let bytes = match hex_decode(trim(text)) {
        Ok(bytes) => bytes,
        Err(complaint) => {
            return Err(
                StellarZkError::ProofGeneration(
                    concat("invalid image_id hex: ", complaint.as_str()),
                ),
            );
        },
    };
    if bytes.len() != 32 {
        return Err(
            StellarZkError::ProofGeneration(
                concat(
                    "image_id must be 32 bytes, got ",
                    u64_to_string(bytes.len() as u64).as_str(),
                ),
            ),
        );
    }
    let mut id = [0u8; 32];
    let mut i: usize = 0;
    while i < 32
        invariant
            i <= 32,
            bytes@.len() == 32,
            forall|k: int| 0 <= k < i ==> id@[k] == bytes@[k],
        decreases 32 - i,
    {
        id[i] = bytes[i];
        i += 1;
    }
    assert(id@ =~= bytes@);
    Ok(id)
}

} // verus!
