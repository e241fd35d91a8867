//! The making of a Groth16 proof, step by step.
//!
//! The witness of the input is computed, `snarkjs` makes the proof from it,
//! and the proof and the public inputs are encoded for the on-chain
//! verifier. A proof that cannot be encoded is never written.

use crate::backend::{
    inputs_info, public_inputs_info, BuildArtifacts, BuildArtifactsModel, ProofArtifacts,
    ProofArtifactsModel,
};
use crate::error::{Failure, StellarZkError};
use crate::field::element_bytes;
use crate::groth16::build_steps::{circuit_name, circuit_name_of, target_of};
use crate::groth16::circuit::{witness_wasm_of, witness_wasm_path};
use crate::groth16::prover::{
    check_snarkjs, convert_proof, convert_public_inputs, converted_inputs, converted_proof,
    generate_proof, generate_witness, parse_error, proof_call, snarkjs_failure, unparsed,
    witness_call,
};
use crate::path::{join, joined};
use crate::pipeline::{stray, stray_step};
use crate::process::{
    check_done, file_failure, text_of, Action, ActionModel, Event, EventModel, Step, StepModel,
};
use crate::text::concat;
use vstd::prelude::*;
use vstd::slice::slice_to_vec;

verus! {

/// What the proof waits for.
#[derive(Debug, Clone, Copy, PartialEq, Eq, Structural)]
pub enum Groth16ProveStage {
    /// Whether the input exists.
    ProbeInput,
    /// The directory of the proofs is made.
    MakeProofDir,
    /// Whether the witness generator exists.
    ProbeGenerator,
    /// The witness is computed.
    Witness,
    /// The proof is made.
    Prove,
    /// The proof is read.
    ReadProof,
    /// The public inputs are read.
    ReadPublic,
    /// The encoded proof is written.
    WriteProof,
    /// The note on the public inputs is written.
    WriteInfo,
}

/// The state of a proof between two actions.
#[derive(Debug)]
pub struct Groth16Prove {
    pub stage: Groth16ProveStage,
    pub project_dir: String,
    pub circuit_artifact: String,
    pub proving_key: Option<String>,
    pub input_path: String,
    /// The encoded proof, once it is read.
    pub proof: Vec<u8>,
    /// The encoded public inputs, once they are read.
    pub public_inputs: Vec<[u8; 32]>,
}

/// The mathematical value of a [`Groth16Prove`].
pub struct Groth16ProveModel {
    pub stage: Groth16ProveStage,
    pub project_dir: Seq<char>,
    pub circuit_artifact: Seq<char>,
    pub proving_key: Option<Seq<char>>,
    pub input_path: Seq<char>,
    pub proof: Seq<u8>,
    pub public_inputs: Seq<Seq<u8>>,
}

impl View for Groth16Prove {
    type V = Groth16ProveModel;

    open spec fn view(&self) -> Groth16ProveModel {
        Groth16ProveModel {
            stage: self.stage,
            project_dir: self.project_dir@,
            circuit_artifact: self.circuit_artifact@,
            proving_key: text_of(self.proving_key),
            input_path: self.input_path@,
            proof: self.proof@,
            public_inputs: element_bytes(self.public_inputs@),
        }
    }
}

/// A step of the proof.
pub type Groth16ProveStep = Step<Groth16Prove, ProofArtifacts>;

/// The mathematical value of a [`Groth16ProveStep`].
pub type Groth16ProveStepModel = StepModel<Groth16ProveModel, ProofArtifactsModel>;

/// The directory of the proofs.
pub open spec fn proof_dir_of(project: Seq<char>) -> Seq<char> {
    joined(project, "proofs"@)
}

/// The witness generator of the circuit that was built.
pub open spec fn generator_of(state: Groth16ProveModel) -> Seq<char> {
    witness_wasm_of(target_of(state.project_dir), circuit_name_of(state.circuit_artifact))
}

/// The witness.
pub open spec fn witness_of(project: Seq<char>) -> Seq<char> {
    joined(target_of(project), "witness.wtns"@)
}

/// The proof as `snarkjs` writes it.
pub open spec fn proof_json_of(project: Seq<char>) -> Seq<char> {
    joined(proof_dir_of(project), "proof.json"@)
}

/// The public inputs as `snarkjs` writes them.
pub open spec fn public_json_of(project: Seq<char>) -> Seq<char> {
    joined(proof_dir_of(project), "public.json"@)
}

/// The proof as the on-chain verifier reads it.
pub open spec fn proof_bin_of(project: Seq<char>) -> Seq<char> {
    joined(proof_dir_of(project), "proof.bin"@)
}

/// The note on the public inputs.
pub open spec fn info_of(project: Seq<char>) -> Seq<char> {
    joined(proof_dir_of(project), "public_inputs.json"@)
}

/// The text that tells that the witness generator is missing.
pub open spec fn no_generator(path: Seq<char>) -> Seq<char> {
    "witness generator WASM not found: "@ + path + ". Run 'stellar-zk build' first."@
}

/// The step that asks for `action` and waits for it at `stage`.
pub open spec fn ask(state: Groth16ProveModel, stage: Groth16ProveStage, action: ActionModel) -> Groth16ProveStepModel {
    StepModel::Perform { action, state: Groth16ProveModel { stage, ..state } }
}

/// The step for a failure, and `otherwise` where there is none.
pub open spec fn unless(failure: Option<Failure>, otherwise: Groth16ProveStepModel) -> Groth16ProveStepModel {
    match failure {
        Some(f) => StepModel::Stopped(f),
        None => otherwise,
    }
}

/// The first step of a proof: whether the input is there.
pub open spec fn groth16_prove_start(
    project: Seq<char>,
    artifacts: BuildArtifactsModel,
    input: Seq<char>,
) -> Groth16ProveStepModel {
    StepModel::Perform {
        action: ActionModel::Exists { path: input },
        state: Groth16ProveModel {
            stage: Groth16ProveStage::ProbeInput,
            project_dir: project,
            circuit_artifact: artifacts.circuit_artifact,
            proving_key: artifacts.proving_key,
            input_path: input,
            proof: Seq::empty(),
            public_inputs: Seq::empty(),
        },
    }
}

/// The proof's next step after `event`.
pub open spec fn groth16_prove_next(state: Groth16ProveModel, event: EventModel) -> Groth16ProveStepModel {
    let project = state.project_dir;
    match state.stage {
        Groth16ProveStage::ProbeInput => match event {
            EventModel::Exists(found) => if found {
                ask(
                    state,
                    Groth16ProveStage::MakeProofDir,
                    ActionModel::CreateDirAll { path: proof_dir_of(project) },
                )
            } else {
                StepModel::Stopped(Failure::InputNotFound(state.input_path))
            },
            _ => stray(event),
        },
        Groth16ProveStage::MakeProofDir => unless(
            file_failure(event),
            ask(
                state,
                Groth16ProveStage::ProbeGenerator,
                ActionModel::Exists { path: generator_of(state) },
            ),
        ),
        Groth16ProveStage::ProbeGenerator => match event {
            EventModel::Exists(found) => if found {
                ask(
                    state,
                    Groth16ProveStage::Witness,
                    ActionModel::Run(
                        witness_call(generator_of(state), state.input_path, witness_of(project)),
                    ),
                )
            } else {
                StepModel::Stopped(Failure::ProofGeneration(no_generator(generator_of(state))))
            },
            _ => stray(event),
        },
        Groth16ProveStage::Witness => unless(
            snarkjs_failure(event, "wtns"@),
            match state.proving_key {
                Some(zkey) => ask(
                    state,
                    Groth16ProveStage::Prove,
                    ActionModel::Run(
                        proof_call(
                            zkey,
                            witness_of(project),
                            proof_json_of(project),
                            public_json_of(project),
                        ),
                    ),
                ),
                None => StepModel::Stopped(
                    Failure::ProofGeneration(
                        "zkey path not set — run 'stellar-zk build' first"@,
                    ),
                ),
            },
        ),
        Groth16ProveStage::Prove => unless(
            snarkjs_failure(event, "groth16"@),
            ask(
                state,
                Groth16ProveStage::ReadProof,
                ActionModel::ReadJson { path: proof_json_of(project) },
            ),
        ),
        Groth16ProveStage::ReadProof => match event {
            EventModel::Json(doc) => match converted_proof(doc) {
                Ok(bytes) => ask(
                    Groth16ProveModel { proof: bytes, ..state },
                    Groth16ProveStage::ReadPublic,
                    ActionModel::ReadJson { path: public_json_of(project) },
                ),
                Err(failure) => StepModel::Stopped(failure),
            },
            EventModel::Malformed { message } => StepModel::Stopped(
                unparsed("proof.json"@, message),
            ),
            _ => stray(event),
        },
        Groth16ProveStage::ReadPublic => match event {
            EventModel::Json(doc) => match converted_inputs(doc) {
                Ok(elements) => ask(
                    Groth16ProveModel { public_inputs: elements, ..state },
                    Groth16ProveStage::WriteProof,
                    ActionModel::Write { path: proof_bin_of(project), content: state.proof },
                ),
                Err(failure) => StepModel::Stopped(failure),
            },
            EventModel::Malformed { message } => StepModel::Stopped(
                unparsed("public.json"@, message),
            ),
            _ => stray(event),
        },
        Groth16ProveStage::WriteProof => unless(
            file_failure(event),
            ask(
                state,
                Groth16ProveStage::WriteInfo,
                ActionModel::WriteJson {
                    path: info_of(project),
                    value: inputs_info(state.public_inputs, state.proof.len()),
                    pretty: true,
                },
            ),
        ),
        Groth16ProveStage::WriteInfo => unless(
            file_failure(event),
            StepModel::Finished(
                ProofArtifactsModel {
                    proof: state.proof,
                    public_inputs: state.public_inputs,
                    proof_path: proof_bin_of(project),
                },
            ),
        ),
    }
}

impl Groth16Prove {
    /// The first step of a proof for the input at `input_path`.
    pub fn start(project_dir: &str, build_artifacts: &BuildArtifacts, input_path: &str) -> (step:
        Groth16ProveStep)
        ensures
            step@ == groth16_prove_start(project_dir@, build_artifacts@, input_path@),
    {
        let proving_key = match &build_artifacts.proving_key {
            Some(key) => Some(key.clone()),
            None => None,
        };
        let state = Groth16Prove {
            stage: Groth16ProveStage::ProbeInput,
            project_dir: project_dir.to_owned(),
            circuit_artifact: build_artifacts.circuit_artifact.clone(),
            proving_key,
            input_path: input_path.to_owned(),
            proof: Vec::new(),
            public_inputs: Vec::new(),
        };
        assert(state@.public_inputs =~= Seq::empty());
        Step::Perform { action: Action::Exists { path: input_path.to_owned() }, state }
    }

    /// The step that asks for `action` and waits for it at `stage`.
    fn ask(self, stage: Groth16ProveStage, action: Action) -> (step: Groth16ProveStep)
        ensures
            step@ == ask(self@, stage, action@),
    {
        Step::Perform { action, state: Groth16Prove { stage, ..self } }
    }

    /// The proof's next step after `event`, the event of the action that
    /// the last step asked for.
    pub fn advance(self, event: Event) -> (step: Groth16ProveStep)
        ensures
            step@ == groth16_prove_next(self@, event@),
    {
        let project = self.project_dir.as_str();
        let target = join(project, "target");
        let proof_dir = join(project, "proofs");
        let generator = witness_wasm_path(
            target.as_str(),
            circuit_name(self.circuit_artifact.as_str()).as_str(),
        );
        let witness = join(target.as_str(), "witness.wtns");
        let proof_json = join(proof_dir.as_str(), "proof.json");
        let public_json = join(proof_dir.as_str(), "public.json");
        let proof_bin = join(proof_dir.as_str(), "proof.bin");
        let info = join(proof_dir.as_str(), "public_inputs.json");
        match self.stage {
            Groth16ProveStage::ProbeInput => match event {
                Event::Exists(found) => if found {
                    self.ask(
                        Groth16ProveStage::MakeProofDir,
                        Action::CreateDirAll { path: proof_dir },
                    )
                } else {
                    Step::Stopped(StellarZkError::InputNotFound(self.input_path))
                },
                other => stray_step(other),
            },
            Groth16ProveStage::MakeProofDir => match check_done(event) {
                Some(error) => Step::Stopped(error),
                None => self.ask(
                    Groth16ProveStage::ProbeGenerator,
                    Action::Exists { path: generator },
                ),
            },
            Groth16ProveStage::ProbeGenerator => match event {
                Event::Exists(found) => if found {
                    let call = generate_witness(
                        generator.as_str(),
                        self.input_path.as_str(),
                        witness.as_str(),
                    );
                    self.ask(Groth16ProveStage::Witness, Action::Run(call))
                } else {
                    let mut text = concat("witness generator WASM not found: ", generator.as_str());
                    text.append(". Run 'stellar-zk build' first.");
                    Step::Stopped(StellarZkError::ProofGeneration(text))
                },
                other => stray_step(other),
            },
            Groth16ProveStage::Witness => match check_snarkjs(event, "wtns") {
                Some(error) => Step::Stopped(error),
                None => match &self.proving_key {
                    Some(zkey) => {
                        let call = generate_proof(
                            zkey.as_str(),
                            witness.as_str(),
                            proof_json.as_str(),
                            public_json.as_str(),
                        );
                        self.ask(Groth16ProveStage::Prove, Action::Run(call))
                    },
                    None => Step::Stopped(
                        StellarZkError::ProofGeneration(
                            "zkey path not set — run 'stellar-zk build' first".to_owned(),
                        ),
                    ),
                },
            },
            Groth16ProveStage::Prove => match check_snarkjs(event, "groth16") {
                Some(error) => Step::Stopped(error),
                None => self.ask(Groth16ProveStage::ReadProof, Action::ReadJson { path: proof_json }),
            },
            Groth16ProveStage::ReadProof => match event {
                Event::Json(doc) => match convert_proof(&doc) {
                    Ok(bytes) => {
                        let mut state = self;
                        state.proof = bytes;
                        state.ask(
                            Groth16ProveStage::ReadPublic,
                            Action::ReadJson { path: public_json },
                        )
                    },
                    Err(error) => Step::Stopped(error),
                },
                Event::Malformed { message } => Step::Stopped(
                    parse_error("proof.json", message.as_str()),
                ),
                other => stray_step(other),
            },
            Groth16ProveStage::ReadPublic => match event {
                Event::Json(doc) => match convert_public_inputs(&doc) {
                    Ok(elements) => {
                        let content = slice_to_vec(self.proof.as_slice());
                        let mut state = self;
                        state.public_inputs = elements;
                        state.ask(
                            Groth16ProveStage::WriteProof,
                            Action::Write { path: proof_bin, content },
                        )
                    },
                    Err(error) => Step::Stopped(error),
                },
                Event::Malformed { message } => Step::Stopped(
                    parse_error("public.json", message.as_str()),
                ),
                other => stray_step(other),
            },
            Groth16ProveStage::WriteProof => match check_done(event) {
                Some(error) => Step::Stopped(error),
                None => {
                    let value = public_inputs_info(&self.public_inputs, self.proof.len());
                    self.ask(
                        Groth16ProveStage::WriteInfo,
                        Action::WriteJson { path: info, value, pretty: true },
                    )
                },
            },
            Groth16ProveStage::WriteInfo => match check_done(event) {
                Some(error) => Step::Stopped(error),
                None => Step::Finished(
                    ProofArtifacts {
                        proof: self.proof,
                        public_inputs: self.public_inputs,
                        proof_path: proof_bin,
                    },
                ),
            },
        }
    }
}

/// What is written as the proof has been encoded: whenever the next step
/// asks to write the proof, the state holds an encoded proof of 256 bytes
/// and the public inputs that were read with it.
pub proof fn lemma_proof_is_encoded_before_it_is_written(
    state: Groth16ProveModel,
    event: EventModel,
)
    requires
        state.stage == Groth16ProveStage::ReadProof,
    ensures
        groth16_prove_next(state, event) matches StepModel::Perform { state: next, .. } ==> (
        event matches EventModel::Json(doc) && converted_proof(doc) == Ok::<Seq<u8>, Failure>(
            next.proof,
        ) && next.proof.len() == 256),
{
    if let EventModel::Json(doc) = event {
        crate::groth16::serializer::lemma_proof_encoding_len(doc);
    }
}

} // verus!
