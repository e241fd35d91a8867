//! The making of a RISC Zero proof, step by step.
//!
//! The host binary runs the guest program inside the zkVM and leaves the
//! seal, the journal and the image ID. The seal is checked before anything
//! is written: a seal of the wrong length or with the wrong selector ends
//! the proof. The public inputs are the image ID and the digest of the
//! journal.

use crate::backend::{
    inputs_info, public_inputs_info, ProofArtifacts, ProofArtifactsModel,
};
use crate::error::{Failure, StellarZkError};
use crate::field::element_bytes;
use crate::path::{join, joined};
use crate::pipeline::{stray, stray_step};
use crate::process::{
    check_done, check_tool, file_failure, out_of_turn, tool_failure, unexpected, Action,
    ActionModel, Event, EventModel, Step, StepModel,
};
use crate::risc0::prover::{
    host_binary_of, host_telling, image_id_of, read_image_id, risc0_inputs, run_host,
    run_host_call, run_host_telling, ReceiptOutput,
};
use crate::risc0::serializer::{is_valid_seal, validate_seal};
use crate::text::{concat, decimal_text, u64_to_string};
use vstd::prelude::*;
use vstd::slice::slice_to_vec;

verus! {

/// What the proof waits for.
#[derive(Debug, Clone, Copy, PartialEq, Eq, Structural)]
pub enum Risc0ProveStage {
    /// Whether the input exists.
    ProbeInput,
    /// The directory of the proofs is made.
    MakeProofDir,
    /// Whether the host binary exists.
    ProbeHost,
    /// The host binary runs.
    RunHost,
    /// The seal is read.
    ReadSeal,
    /// The journal is read.
    ReadJournal,
    /// The image ID is read.
    ReadImageId,
    /// The seal is written as the proof.
    WriteReceipt,
    /// The note on the public inputs is written.
    WriteInfo,
}

/// The state of a proof between two actions.
#[derive(Debug)]
pub struct Risc0Prove {
    pub stage: Risc0ProveStage,
    pub project_dir: String,
    pub input_path: String,
    /// The seal, once it is read.
    pub seal: Vec<u8>,
    /// The journal, once it is read.
    pub journal: Vec<u8>,
    /// The public inputs, once the image ID is read: the image ID, then
    /// the digest of the journal.
    pub public_inputs: Vec<[u8; 32]>,
}

/// The mathematical value of a [`Risc0Prove`].
pub struct Risc0ProveModel {
    pub stage: Risc0ProveStage,
    pub project_dir: Seq<char>,
    pub input_path: Seq<char>,
    pub seal: Seq<u8>,
    pub journal: Seq<u8>,
    pub public_inputs: Seq<Seq<u8>>,
}

impl View for Risc0Prove {
    type V = Risc0ProveModel;

    open spec fn view(&self) -> Risc0ProveModel {
        Risc0ProveModel {
            stage: self.stage,
            project_dir: self.project_dir@,
            input_path: self.input_path@,
            seal: self.seal@,
            journal: self.journal@,
            public_inputs: element_bytes(self.public_inputs@),
        }
    }
}

/// A step of the proof.
pub type Risc0ProveStep = Step<Risc0Prove, ProofArtifacts>;

/// The mathematical value of a [`Risc0ProveStep`].
pub type Risc0ProveStepModel = StepModel<Risc0ProveModel, ProofArtifactsModel>;

/// The directory of the proofs.
pub open spec fn proof_dir_of(project: Seq<char>) -> Seq<char> {
    joined(project, "proofs"@)
}

/// The seal as the host binary leaves it.
pub open spec fn seal_of(project: Seq<char>) -> Seq<char> {
    joined(proof_dir_of(project), "seal.bin"@)
}

/// The journal as the host binary leaves it.
pub open spec fn journal_of(project: Seq<char>) -> Seq<char> {
    joined(proof_dir_of(project), "journal.bin"@)
}

/// The image ID as the host binary leaves it.
pub open spec fn image_id_file_of(project: Seq<char>) -> Seq<char> {
    joined(proof_dir_of(project), "image_id.hex"@)
}

/// The proof.
pub open spec fn receipt_of(project: Seq<char>) -> Seq<char> {
    joined(proof_dir_of(project), "receipt.bin"@)
}

/// The note on the public inputs.
pub open spec fn info_of(project: Seq<char>) -> Seq<char> {
    joined(proof_dir_of(project), "public_inputs.json"@)
}

/// The failure for a file of the host binary that cannot be read.
pub open spec fn unread(file: Seq<char>, event: EventModel) -> Failure {
    match event {
        EventModel::NotFound { message } => Failure::ProofGeneration(
            "failed to read "@ + file + ": "@ + message,
        ),
        EventModel::Failed { message } => Failure::ProofGeneration(
            "failed to read "@ + file + ": "@ + message,
        ),
        _ => Failure::Other(out_of_turn()),
    }
}

/// The failure for a seal that is not valid.
pub open spec fn invalid_seal(seal: Seq<u8>) -> Failure {
    Failure::ProofGeneration(
        "invalid seal: expected 260 bytes with correct selector, got "@ + decimal_text(seal.len())
            + " bytes"@,
    )
}

/// The step that asks for `action` and waits for it at `stage`.
pub open spec fn ask(state: Risc0ProveModel, stage: Risc0ProveStage, action: ActionModel) -> Risc0ProveStepModel {
    StepModel::Perform { action, state: Risc0ProveModel { stage, ..state } }
}

/// The step for a failure, and `otherwise` where there is none.
pub open spec fn unless(failure: Option<Failure>, otherwise: Risc0ProveStepModel) -> Risc0ProveStepModel {
    match failure {
        Some(f) => StepModel::Stopped(f),
        None => otherwise,
    }
}

/// The first step of a proof: whether the input is there.
pub open spec fn risc0_prove_start(project: Seq<char>, input: Seq<char>) -> Risc0ProveStepModel {
    StepModel::Perform {
        action: ActionModel::Exists { path: input },
        state: Risc0ProveModel {
            stage: Risc0ProveStage::ProbeInput,
            project_dir: project,
            input_path: input,
            seal: Seq::empty(),
            journal: Seq::empty(),
            public_inputs: Seq::empty(),
        },
    }
}

/// The proof's next step after `event`.
pub open spec fn risc0_prove_next(state: Risc0ProveModel, event: EventModel) -> Risc0ProveStepModel {
    let project = state.project_dir;
    match state.stage {
        Risc0ProveStage::ProbeInput => match event {
            EventModel::Exists(found) => if found {
                ask(
                    state,
                    Risc0ProveStage::MakeProofDir,
                    ActionModel::CreateDirAll { path: proof_dir_of(project) },
                )
            } else {
                StepModel::Stopped(Failure::InputNotFound(state.input_path))
            },
            _ => stray(event),
        },
        Risc0ProveStage::MakeProofDir => unless(
            file_failure(event),
            ask(
                state,
                Risc0ProveStage::ProbeHost,
                ActionModel::Exists { path: host_binary_of(project) },
            ),
        ),
        Risc0ProveStage::ProbeHost => match event {
            EventModel::Exists(found) => if found {
                ask(
                    state,
                    Risc0ProveStage::RunHost,
                    ActionModel::Run(run_host_call(project, state.input_path)),
                )
            } else {
                StepModel::Stopped(
                    Failure::ProofGeneration(
                        "host binary not found — run `stellar-zk build` first"@,
                    ),
                )
            },
            _ => stray(event),
        },
        Risc0ProveStage::RunHost => unless(
            tool_failure(event, run_host_telling()),
            ask(state, Risc0ProveStage::ReadSeal, ActionModel::ReadBytes { path: seal_of(project) }),
        ),
        Risc0ProveStage::ReadSeal => match event {
            EventModel::Bytes(bytes) => ask(
                Risc0ProveModel { seal: bytes, ..state },
                Risc0ProveStage::ReadJournal,
                ActionModel::ReadBytes { path: journal_of(project) },
            ),
            _ => StepModel::Stopped(unread("seal.bin"@, event)),
        },
        Risc0ProveStage::ReadJournal => match event {
            EventModel::Bytes(bytes) => ask(
                Risc0ProveModel { journal: bytes, ..state },
                Risc0ProveStage::ReadImageId,
                ActionModel::ReadText { path: image_id_file_of(project) },
            ),
            _ => StepModel::Stopped(unread("journal.bin"@, event)),
        },
        Risc0ProveStage::ReadImageId => match event {
            EventModel::Text(text) => match image_id_of(text) {
                Err(failure) => StepModel::Stopped(failure),
                Ok(image_id) => if !is_valid_seal(state.seal) {
                    StepModel::Stopped(invalid_seal(state.seal))
                } else {
                    ask(
                        Risc0ProveModel {
                            public_inputs: risc0_inputs(image_id, state.journal),
                            ..state
                        },
                        Risc0ProveStage::WriteReceipt,
                        ActionModel::Write { path: receipt_of(project), content: state.seal },
                    )
                },
            },
            _ => StepModel::Stopped(unread("image_id.hex"@, event)),
        },
        Risc0ProveStage::WriteReceipt => unless(
            file_failure(event),
            ask(
                state,
                Risc0ProveStage::WriteInfo,
                ActionModel::WriteJson {
                    path: info_of(project),
                    value: inputs_info(state.public_inputs, state.seal.len()),
                    pretty: true,
                },
            ),
        ),
        Risc0ProveStage::WriteInfo => unless(
            file_failure(event),
            StepModel::Finished(
                ProofArtifactsModel {
                    proof: state.seal,
                    public_inputs: state.public_inputs,
                    proof_path: receipt_of(project),
                },
            ),
        ),
    }
}

/// A seal that is not valid is never written as a proof: where the next
/// step asks to write the proof, what it writes is the seal that was read,
/// 260 bytes long and with the accepted selector.
pub proof fn lemma_only_valid_seals_are_written(state: Risc0ProveModel, event: EventModel)
    ensures
        bytes_to_write(risc0_prove_next(state, event)) matches Some(content) ==> content
            == state.seal && is_valid_seal(content),
{
}

/// What a step asks to write as bytes, if it asks for that.
pub open spec fn bytes_to_write(step: Risc0ProveStepModel) -> Option<Seq<u8>> {
    match step {
        StepModel::Perform { action: ActionModel::Write { path, content }, .. } => Some(content),
        _ => None,
    }
}

/// The error for a file of the host binary that cannot be read.
fn read_error(file: &str, event: Event) -> (error: StellarZkError)
    ensures
        error@ == unread(file@, event@),
{
    match event {
        Event::NotFound { message } => {
            let mut text = concat("failed to read ", file);
            text.append(": ");
            text.append(message.as_str());
            StellarZkError::ProofGeneration(text)
        },
        Event::Failed { message } => {
            let mut text = concat("failed to read ", file);
            text.append(": ");
            text.append(message.as_str());
            StellarZkError::ProofGeneration(text)
        },
        _ => unexpected(),
    }
}

impl Risc0Prove {
    /// The first step of a proof for the input at `input_path`.
    pub fn start(project_dir: &str, input_path: &str) -> (step: Risc0ProveStep)
        ensures
            step@ == risc0_prove_start(project_dir@, input_path@),
    {
        let state = Risc0Prove {
            stage: Risc0ProveStage::ProbeInput,
            project_dir: project_dir.to_owned(),
            input_path: input_path.to_owned(),
            seal: Vec::new(),
            journal: Vec::new(),
            public_inputs: Vec::new(),
        };
        assert(state@.public_inputs =~= Seq::empty());
        Step::Perform { action: Action::Exists { path: input_path.to_owned() }, state }
    }

    /// The step that asks for `action` and waits for it at `stage`.
    fn ask(self, stage: Risc0ProveStage, action: Action) -> (step: Risc0ProveStep)
        ensures
            step@ == ask(self@, stage, action@),
    {
        Step::Perform { action, state: Risc0Prove { stage, ..self } }
    }

    /// The proof's next step after `event`, the event of the action that
    /// the last step asked for.
    pub fn advance(self, event: Event) -> (step: Risc0ProveStep)
        ensures
            step@ == risc0_prove_next(self@, event@),
    {
        let project = self.project_dir.as_str();
        let proof_dir = join(project, "proofs");
        let receipt = join(proof_dir.as_str(), "receipt.bin");
        match self.stage {
            Risc0ProveStage::ProbeInput => match event {
                Event::Exists(found) => if found {
                    self.ask(Risc0ProveStage::MakeProofDir, Action::CreateDirAll { path: proof_dir })
                } else {
                    Step::Stopped(StellarZkError::InputNotFound(self.input_path))
                },
                other => stray_step(other),
            },
            Risc0ProveStage::MakeProofDir => match check_done(event) {
                Some(error) => Step::Stopped(error),
                None => {
                    let path = join(project, "programs/host/target/release/host");
                    self.ask(Risc0ProveStage::ProbeHost, Action::Exists { path })
                },
            },
            Risc0ProveStage::ProbeHost => match event {
                Event::Exists(found) => if found {
                    let call = run_host(project, self.input_path.as_str());
                    self.ask(Risc0ProveStage::RunHost, Action::Run(call))
                } else {
                    Step::Stopped(
                        StellarZkError::ProofGeneration(
                            "host binary not found — run `stellar-zk build` first".to_owned(),
                        ),
                    )
                },
                other => stray_step(other),
            },
            Risc0ProveStage::RunHost => match check_tool(event, &host_telling()) {
                Some(error) => Step::Stopped(error),
                None => {
                    let path = join(proof_dir.as_str(), "seal.bin");
                    self.ask(Risc0ProveStage::ReadSeal, Action::ReadBytes { path })
                },
            },
            Risc0ProveStage::ReadSeal => match event {
                Event::Bytes(bytes) => {
                    let path = join(proof_dir.as_str(), "journal.bin");
                    let mut state = self;
                    state.seal = bytes;
                    state.ask(Risc0ProveStage::ReadJournal, Action::ReadBytes { path })
                },
                other => Step::Stopped(read_error("seal.bin", other)),
            },
            Risc0ProveStage::ReadJournal => match event {
                Event::Bytes(bytes) => {
                    let path = join(proof_dir.as_str(), "image_id.hex");
                    let mut state = self;
                    state.journal = bytes;
                    state.ask(Risc0ProveStage::ReadImageId, Action::ReadText { path })
                },
                other => Step::Stopped(read_error("journal.bin", other)),
            },
            Risc0ProveStage::ReadImageId => match event {
                Event::Text(text) => match read_image_id(text.as_str()) {
                    Err(error) => Step::Stopped(error),
                    Ok(image_id) => if !validate_seal(self.seal.as_slice()) {
                        let mut text = concat(
                            "invalid seal: expected 260 bytes with correct selector, got ",
                            u64_to_string(self.seal.len() as u64).as_str(),
                        );
                        text.append(" bytes");
                        Step::Stopped(StellarZkError::ProofGeneration(text))
                    } else {
                        let content = slice_to_vec(self.seal.as_slice());
                        let Risc0Prove { stage, project_dir, input_path, seal, journal, .. } = self;
                        let output = ReceiptOutput { seal, journal, image_id };
                        let public_inputs = output.public_inputs();
                        let state = Risc0Prove {
                            stage,
                            project_dir,
                            input_path,
                            seal: output.seal,
                            journal: output.journal,
                            public_inputs,
                        };
                        state.ask(
                            Risc0ProveStage::WriteReceipt,
                            Action::Write { path: receipt, content },
                        )
                    },
                },
                other => Step::Stopped(read_error("image_id.hex", other)),
            },
            Risc0ProveStage::WriteReceipt => match check_done(event) {
                Some(error) => Step::Stopped(error),
                None => {
                    let value = public_inputs_info(&self.public_inputs, self.seal.len());
                    let path = join(proof_dir.as_str(), "public_inputs.json");
                    self.ask(
                        Risc0ProveStage::WriteInfo,
                        Action::WriteJson { path, value, pretty: true },
                    )
                },
            },
            Risc0ProveStage::WriteInfo => match check_done(event) {
                Some(error) => Step::Stopped(error),
                None => Step::Finished(
                    ProofArtifacts {
                        proof: self.seal,
                        public_inputs: self.public_inputs,
                        proof_path: receipt,
                    },
                ),
            },
        }
    }
}

} // verus!
