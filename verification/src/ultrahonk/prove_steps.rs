//! The making of an UltraHonk proof, step by step.
//!
//! `nargo` runs the circuit on the input, `bb` makes the proof and checks it
//! off chain, and the public inputs are taken from the head of the proof.

use crate::backend::{
    inputs_info, public_inputs_info, BuildArtifacts, BuildArtifactsModel, ProofArtifacts,
    ProofArtifactsModel,
};
use crate::error::{Failure, StellarZkError};
use crate::field::element_bytes;
use crate::path::{join, joined};
use crate::pipeline::{stray, stray_step};
use crate::process::{
    check_done, check_tool, file_failure, tool_failure, Action, ActionModel, Blame, Event,
    EventModel, Step, StepModel,
};
use crate::ultrahonk::build_steps::{kept_settings_of, target_of};
use crate::ultrahonk::nargo::{
    bb_telling, bb_verify_telling, execute, execute_call, nargo_telling, plain_telling,
    prove_call, prove_ultrahonk, verify_call, verify_telling, verify_ultrahonk,
};
use crate::ultrahonk::proof_convert::{extract_public_inputs, public_inputs_of};
use vstd::prelude::*;

verus! {

/// What the proof waits for.
#[derive(Debug, Clone, Copy, PartialEq, Eq, Structural)]
pub enum UltraHonkProveStage {
    /// Whether the input exists.
    ProbeInput,
    /// The directory of the proofs is made.
    MakeProofDir,
    /// The settings that the build kept are read.
    LoadOracle,
    /// `nargo` makes the witness.
    Execute,
    /// `bb` makes the proof.
    Prove,
    /// `bb` checks the proof.
    Verify,
    /// The proof is read.
    ReadProof,
    /// The note on the public inputs is written.
    WriteInfo,
}

/// The state of a proof between two actions.
#[derive(Debug)]
pub struct UltraHonkProve {
    pub stage: UltraHonkProveStage,
    pub project_dir: String,
    pub circuit_artifact: String,
    pub verification_key: String,
    pub input_path: String,
    /// The oracle hash, once the settings are read.
    pub oracle_hash: String,
    /// The proof, once it is read.
    pub proof: Vec<u8>,
    /// The public inputs of the proof, once it is read.
    pub public_inputs: Vec<[u8; 32]>,
}

/// The mathematical value of an [`UltraHonkProve`].
pub struct UltraHonkProveModel {
    pub stage: UltraHonkProveStage,
    pub project_dir: Seq<char>,
    pub circuit_artifact: Seq<char>,
    pub verification_key: Seq<char>,
    pub input_path: Seq<char>,
    pub oracle_hash: Seq<char>,
    pub proof: Seq<u8>,
    pub public_inputs: Seq<Seq<u8>>,
}

impl View for UltraHonkProve {
    type V = UltraHonkProveModel;

    open spec fn view(&self) -> UltraHonkProveModel {
        UltraHonkProveModel {
            stage: self.stage,
            project_dir: self.project_dir@,
            circuit_artifact: self.circuit_artifact@,
            verification_key: self.verification_key@,
            input_path: self.input_path@,
            oracle_hash: self.oracle_hash@,
            proof: self.proof@,
            public_inputs: element_bytes(self.public_inputs@),
        }
    }
}

/// A step of the proof.
pub type UltraHonkProveStep = Step<UltraHonkProve, ProofArtifacts>;

/// The mathematical value of an [`UltraHonkProveStep`].
pub type UltraHonkProveStepModel = StepModel<UltraHonkProveModel, ProofArtifactsModel>;

/// The directory of the proofs.
pub open spec fn proof_dir_of(project: Seq<char>) -> Seq<char> {
    joined(project, "proofs"@)
}

/// The witness.
pub open spec fn witness_of(project: Seq<char>) -> Seq<char> {
    joined(target_of(project), "witness"@)
}

/// The proof.
pub open spec fn proof_of(project: Seq<char>) -> Seq<char> {
    joined(proof_dir_of(project), "proof.bin"@)
}

/// The note on the public inputs.
pub open spec fn info_of(project: Seq<char>) -> Seq<char> {
    joined(proof_dir_of(project), "public_inputs.json"@)
}

/// The oracle hash that the build kept: the one in its settings, and
/// `keccak` where the settings cannot be read or name none.
pub open spec fn kept_oracle_hash(event: EventModel) -> Seq<char> {
    match event {
        EventModel::Json(doc) => match doc.member_text("oracle_hash"@) {
            Some(hash) => hash,
            None => "keccak"@,
        },
        _ => "keccak"@,
    }
}

/// The step that asks for `action` and waits for it at `stage`.
pub open spec fn ask(state: UltraHonkProveModel, stage: UltraHonkProveStage, action: ActionModel) -> UltraHonkProveStepModel {
    StepModel::Perform { action, state: UltraHonkProveModel { stage, ..state } }
}

/// The step for a failure, and `otherwise` where there is none.
pub open spec fn unless(failure: Option<Failure>, otherwise: UltraHonkProveStepModel) -> UltraHonkProveStepModel {
    match failure {
        Some(f) => StepModel::Stopped(f),
        None => otherwise,
    }
}

/// The first step of a proof: whether the input is there.
pub open spec fn ultrahonk_prove_start(
    project: Seq<char>,
    artifacts: BuildArtifactsModel,
    input: Seq<char>,
) -> UltraHonkProveStepModel {
    StepModel::Perform {
        action: ActionModel::Exists { path: input },
        state: UltraHonkProveModel {
            stage: UltraHonkProveStage::ProbeInput,
            project_dir: project,
            circuit_artifact: artifacts.circuit_artifact,
            verification_key: artifacts.verification_key,
            input_path: input,
            oracle_hash: Seq::empty(),
            proof: Seq::empty(),
            public_inputs: Seq::empty(),
        },
    }
}

/// The proof's next step after `event`.
pub open spec fn ultrahonk_prove_next(state: UltraHonkProveModel, event: EventModel) -> UltraHonkProveStepModel {
    let project = state.project_dir;
    match state.stage {
        UltraHonkProveStage::ProbeInput => match event {
            EventModel::Exists(found) => if found {
                ask(
                    state,
                    UltraHonkProveStage::MakeProofDir,
                    ActionModel::CreateDirAll { path: proof_dir_of(project) },
                )
            } else {
                StepModel::Stopped(Failure::InputNotFound(state.input_path))
            },
            _ => stray(event),
        },
        UltraHonkProveStage::MakeProofDir => unless(
            file_failure(event),
            ask(
                state,
                UltraHonkProveStage::LoadOracle,
                ActionModel::ReadJson { path: kept_settings_of(project) },
            ),
        ),
        UltraHonkProveStage::LoadOracle => ask(
            UltraHonkProveModel { oracle_hash: kept_oracle_hash(event), ..state },
            UltraHonkProveStage::Execute,
            ActionModel::Run(execute_call(project)),
        ),
        UltraHonkProveStage::Execute => unless(
            tool_failure(event, plain_telling(Blame::Proof, "nargo"@, "noirup"@)),
            ask(
                state,
                UltraHonkProveStage::Prove,
                ActionModel::Run(
                    prove_call(
                        state.circuit_artifact,
                        witness_of(project),
                        proof_of(project),
                        state.oracle_hash,
                    ),
                ),
            ),
        ),
        UltraHonkProveStage::Prove => unless(
            tool_failure(event, plain_telling(Blame::Proof, "bb"@, "bbup"@)),
            ask(
                state,
                UltraHonkProveStage::Verify,
                ActionModel::Run(
                    verify_call(proof_of(project), state.verification_key, state.oracle_hash),
                ),
            ),
        ),
        UltraHonkProveStage::Verify => unless(
            tool_failure(event, verify_telling()),
            ask(
                state,
                UltraHonkProveStage::ReadProof,
                ActionModel::ReadBytes { path: proof_of(project) },
            ),
        ),
        UltraHonkProveStage::ReadProof => match event {
            EventModel::Bytes(bytes) => ask(
                UltraHonkProveModel {
                    proof: bytes,
                    public_inputs: public_inputs_of(bytes),
                    ..state
                },
                UltraHonkProveStage::WriteInfo,
                ActionModel::WriteJson {
                    path: info_of(project),
                    value: inputs_info(public_inputs_of(bytes), bytes.len()),
                    pretty: true,
                },
            ),
            _ => stray(event),
        },
        UltraHonkProveStage::WriteInfo => unless(
            file_failure(event),
            StepModel::Finished(
                ProofArtifactsModel {
                    proof: state.proof,
                    public_inputs: state.public_inputs,
                    proof_path: proof_of(project),
                },
            ),
        ),
    }
}

/// Reads the oracle hash that the build kept from what came of reading its
/// settings.
pub fn load_oracle_hash(event: &Event) -> (hash: String)
    ensures
        hash@ == kept_oracle_hash(event@),
{
    match event {
        Event::Json(doc) => match doc.get_str("oracle_hash") {
            Some(hash) => hash.to_owned(),
            None => "keccak".to_owned(),
        },
        _ => "keccak".to_owned(),
    }
}

impl UltraHonkProve {
    /// The first step of a proof for the input at `input_path`.
    pub fn start(project_dir: &str, build_artifacts: &BuildArtifacts, input_path: &str) -> (step:
        UltraHonkProveStep)
        ensures
            step@ == ultrahonk_prove_start(project_dir@, build_artifacts@, input_path@),
    {
        let state = UltraHonkProve {
            stage: UltraHonkProveStage::ProbeInput,
            project_dir: project_dir.to_owned(),
            circuit_artifact: build_artifacts.circuit_artifact.clone(),
            verification_key: build_artifacts.verification_key.clone(),
            input_path: input_path.to_owned(),
            oracle_hash: String::new(),
            proof: Vec::new(),
            public_inputs: Vec::new(),
        };
        assert(state@.public_inputs =~= Seq::empty());
        Step::Perform { action: Action::Exists { path: input_path.to_owned() }, state }
    }

    /// The step that asks for `action` and waits for it at `stage`.
    fn ask(self, stage: UltraHonkProveStage, action: Action) -> (step: UltraHonkProveStep)
        ensures
            step@ == ask(self@, stage, action@),
    {
        Step::Perform { action, state: UltraHonkProve { stage, ..self } }
    }

    /// The proof's next step after `event`, the event of the action that
    /// the last step asked for.
    pub fn advance(self, event: Event) -> (step: UltraHonkProveStep)
        ensures
            step@ == ultrahonk_prove_next(self@, event@),
    {
        let project = self.project_dir.as_str();
        let target = join(project, "target");
        let proof_dir = join(project, "proofs");
        let proof_path = join(proof_dir.as_str(), "proof.bin");
        match self.stage {
            UltraHonkProveStage::ProbeInput => match event {
                Event::Exists(found) => if found {
                    self.ask(
                        UltraHonkProveStage::MakeProofDir,
                        Action::CreateDirAll { path: proof_dir },
                    )
                } else {
                    Step::Stopped(StellarZkError::InputNotFound(self.input_path))
                },
                other => stray_step(other),
            },
            UltraHonkProveStage::MakeProofDir => match check_done(event) {
                Some(error) => Step::Stopped(error),
                None => {
                    let path = join(target.as_str(), "ultrahonk_config.json");
                    self.ask(UltraHonkProveStage::LoadOracle, Action::ReadJson { path })
                },
            },
            UltraHonkProveStage::LoadOracle => {
                let call = execute(project);
                let mut state = self;
                state.oracle_hash = load_oracle_hash(&event);
                state.ask(UltraHonkProveStage::Execute, Action::Run(call))
            },
            UltraHonkProveStage::Execute => match check_tool(event, &nargo_telling(Blame::Proof)) {
                Some(error) => Step::Stopped(error),
                None => {
                    let call = prove_ultrahonk(
                        self.circuit_artifact.as_str(),
                        join(target.as_str(), "witness").as_str(),
                        proof_path.as_str(),
                        self.oracle_hash.as_str(),
                    );
                    self.ask(UltraHonkProveStage::Prove, Action::Run(call))
                },
            },
            UltraHonkProveStage::Prove => match check_tool(event, &bb_telling(Blame::Proof)) {
                Some(error) => Step::Stopped(error),
                None => {
                    let call = verify_ultrahonk(
                        proof_path.as_str(),
                        self.verification_key.as_str(),
                        self.oracle_hash.as_str(),
                    );
                    self.ask(UltraHonkProveStage::Verify, Action::Run(call))
                },
            },
            UltraHonkProveStage::Verify => match check_tool(event, &bb_verify_telling()) {
                Some(error) => Step::Stopped(error),
                None => self.ask(
                    UltraHonkProveStage::ReadProof,
                    Action::ReadBytes { path: proof_path },
                ),
            },
            UltraHonkProveStage::ReadProof => match event {
                Event::Bytes(bytes) => {
                    let public_inputs = extract_public_inputs(bytes.as_slice());
                    let value = public_inputs_info(&public_inputs, bytes.len());
                    let path = join(proof_dir.as_str(), "public_inputs.json");
                    let mut state = self;
                    state.proof = bytes;
                    state.public_inputs = public_inputs;
                    state.ask(
                        UltraHonkProveStage::WriteInfo,
                        Action::WriteJson { path, value, pretty: true },
                    )
                },
                other => stray_step(other),
            },
            UltraHonkProveStage::WriteInfo => match check_done(event) {
                Some(error) => Step::Stopped(error),
                None => Step::Finished(
                    ProofArtifacts {
                        proof: self.proof,
                        public_inputs: self.public_inputs,
                        proof_path,
                    },
                ),
            },
        }
    }
}

/// A proof is read only after `bb` has checked it off chain: the step that
/// asks to read it follows a check that ended well.
pub proof fn lemma_proof_is_verified_before_it_is_read(
    state: UltraHonkProveModel,
    event: EventModel,
)
    requires
        state.stage == UltraHonkProveStage::Verify,
    ensures
        ultrahonk_prove_next(state, event) matches StepModel::Perform { .. } ==> (
        event matches EventModel::Exited { success, .. } && success),
{
}

} // verus!
