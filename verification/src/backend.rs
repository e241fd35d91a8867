//! What every proving backend hands over: the artifacts of a build, the
//! artifacts of a proof, an estimate of what verification costs on chain.

use crate::config::{BackendConfig, ProjectConfig};
use crate::error::StellarZkError;
use crate::estimator::{static_estimate, static_model};
use crate::field::element_bytes;
use crate::groth16::build_steps::{
    groth16_build_next, groth16_build_start, Groth16Build, Groth16BuildModel,
};
use crate::groth16::prove_steps::{
    groth16_prove_next, groth16_prove_start, Groth16Prove, Groth16ProveModel,
};
use crate::hexfmt::{hex_encode, hex_text};
use crate::json::{entry_views, views, JsonModel, JsonValue};
use crate::process::{text_of, Event, EventModel, Step, StepModel};
use crate::profile::{OptimizationProfile, ProfileModel};
use crate::risc0::build_steps::{
    risc0_build_next, risc0_build_start, Risc0Build, Risc0BuildModel, Risc0Settings,
};
use crate::risc0::prove_steps::{
    risc0_prove_next, risc0_prove_start, Risc0Prove, Risc0ProveModel,
};
use crate::text::texts;
use crate::tools::{
    check_tools, is_report, minimums_of, needs_of, version_warnings, warnings_of, Requirement,
    RequirementModel,
};
use crate::ultrahonk::build_steps::{
    ultrahonk_build_next, ultrahonk_build_start, UltraHonkBuild, UltraHonkBuildModel,
};
use crate::ultrahonk::prove_steps::{
    ultrahonk_prove_next, ultrahonk_prove_start, UltraHonkProve, UltraHonkProveModel,
};
use crate::version::Version;
use vstd::prelude::*;

verus! {

/// Artifacts of a build. Written once, read by every later stage.
#[derive(Debug)]
pub struct BuildArtifacts {
    /// Path of the compiled circuit or program.
    pub circuit_artifact: String,
    /// Path of the verifier contract binary.
    pub verifier_wasm: String,
    /// Path of the proving key; only a backend with a key for each circuit
    /// has one.
    pub proving_key: Option<String>,
    /// Path of the verification key.
    pub verification_key: String,
}

/// The mathematical value of [`BuildArtifacts`].
pub struct BuildArtifactsModel {
    pub circuit_artifact: Seq<char>,
    pub verifier_wasm: Seq<char>,
    pub proving_key: Option<Seq<char>>,
    pub verification_key: Seq<char>,
}

impl View for BuildArtifacts {
    type V = BuildArtifactsModel;

    open spec fn view(&self) -> BuildArtifactsModel {
        BuildArtifactsModel {
            circuit_artifact: self.circuit_artifact@,
            verifier_wasm: self.verifier_wasm@,
            proving_key: text_of(self.proving_key),
            verification_key: self.verification_key@,
        }
    }
}

/// Artifacts of a proof. Made anew by each proof.
#[derive(Debug)]
pub struct ProofArtifacts {
    /// The proof as the on-chain verifier reads it.
    pub proof: Vec<u8>,
    /// The public inputs, each a field element of 32 bytes, big-endian.
    pub public_inputs: Vec<[u8; 32]>,
    /// Path of the proof on disk.
    pub proof_path: String,
}

/// The mathematical value of [`ProofArtifacts`].
pub struct ProofArtifactsModel {
    pub proof: Seq<u8>,
    pub public_inputs: Seq<Seq<u8>>,
    pub proof_path: Seq<char>,
}

impl View for ProofArtifacts {
    type V = ProofArtifactsModel;

    open spec fn view(&self) -> ProofArtifactsModel {
        ProofArtifactsModel {
            proof: self.proof@,
            public_inputs: element_bytes(self.public_inputs@),
            proof_path: self.proof_path@,
        }
    }
}

/// An estimate of what one verification costs on chain.
#[derive(Debug)]
pub struct CostEstimate {
    /// CPU instructions.
    pub cpu_instructions: u64,
    /// Memory in bytes.
    pub memory_bytes: u64,
    /// Size of the contract binary in bytes.
    pub wasm_size: u64,
    /// Ledger entries read.
    pub ledger_reads: u32,
    /// Ledger entries written.
    pub ledger_writes: u32,
    /// Fee in stroops.
    pub estimated_fee_stroops: u64,
    /// Warnings about limits that are near.
    pub warnings: Vec<String>,
}

/// The mathematical value of a [`CostEstimate`].
pub struct CostModel {
    pub cpu_instructions: u64,
    pub memory_bytes: u64,
    pub wasm_size: u64,
    pub ledger_reads: u32,
    pub ledger_writes: u32,
    pub estimated_fee_stroops: u64,
    pub warnings: Seq<Seq<char>>,
}

impl View for CostEstimate {
    type V = CostModel;

    open spec fn view(&self) -> CostModel {
        CostModel {
            cpu_instructions: self.cpu_instructions,
            memory_bytes: self.memory_bytes,
            wasm_size: self.wasm_size,
            ledger_reads: self.ledger_reads,
            ledger_writes: self.ledger_writes,
            estimated_fee_stroops: self.estimated_fee_stroops,
            warnings: texts(self.warnings@),
        }
    }
}

/// A required tool that is missing, and how to get it.
#[derive(Debug)]
pub struct PrerequisiteError {
    pub tool_name: String,
    pub install_instructions: String,
}

/// A tool whose version is below the least one that is recommended.
#[derive(Debug)]
pub struct VersionWarning {
    pub tool_name: String,
    pub found_version: String,
    pub minimum_version: String,
}

/// The note that goes with a proof for whoever calls the verifier: each
/// public input in hexadecimal, how many there are, and the size of the
/// proof in bytes.
pub open spec fn inputs_info(inputs: Seq<Seq<u8>>, proof_size: nat) -> JsonModel {
    JsonModel::Object(
        seq![
            (
                "public_inputs_hex"@,
                JsonModel::Array(
                    Seq::new(inputs.len(), |i: int| JsonModel::Text(hex_text(inputs[i]))),
                ),
            ),
            ("count"@, JsonModel::Number(Some(inputs.len() as u64))),
            ("total_proof_size"@, JsonModel::Number(Some(proof_size as u64))),
        ],
    )
}

/// Makes the note that goes with a proof.
pub fn public_inputs_info(public_inputs: &Vec<[u8; 32]>, proof_size: usize) -> (info: JsonValue)
    ensures
        info@ == inputs_info(element_bytes(public_inputs@), proof_size as nat),
{
    let ghost inputs = element_bytes(public_inputs@);
    let mut hexes: Vec<JsonValue> = Vec::new();
    let mut i: usize = 0;
    while i < public_inputs.len()
        invariant
            i <= public_inputs@.len(),
            inputs == element_bytes(public_inputs@),
            hexes@.len() == i,
            forall|k: int| 0 <= k < i ==> (#[trigger] hexes@[k])@ == JsonModel::Text(
                hex_text(inputs[k]),
            ),
        decreases public_inputs@.len() - i,
    {
        let text = hex_encode(public_inputs[i].as_slice());
        hexes.push(JsonValue::text(text.as_str()));
        i += 1;
    }
    assert(views(hexes@) =~= Seq::new(inputs.len(), |i: int| JsonModel::Text(hex_text(inputs[i]))));
    let count = public_inputs.len();
    let mut entries: Vec<(String, JsonValue)> = Vec::new();
    entries.push(("public_inputs_hex".to_owned(), JsonValue::array(hexes)));
    entries.push(("count".to_owned(), JsonValue::unsigned(count as u64)));
    entries.push(("total_proof_size".to_owned(), JsonValue::unsigned(proof_size as u64)));
    assert(entry_views(entries@) =~= inputs_info(inputs, proof_size as nat)->Object_0);
    JsonValue::object(entries)
}

/// The proving backends. There are these three and no others.
#[derive(Debug, Clone, Copy, PartialEq, Eq, Structural)]
pub enum BackendKind {
    Groth16,
    UltraHonk,
    Risc0,
}

impl BackendKind {
    /// The name that settings and command lines use for the backend.
    pub open spec fn name(self) -> Seq<char> {
        match self {
            BackendKind::Groth16 => "groth16"@,
            BackendKind::UltraHonk => "ultrahonk"@,
            BackendKind::Risc0 => "risc0"@,
        }
    }

    /// The name to show to a user.
    pub open spec fn display_name(self) -> Seq<char> {
        match self {
            BackendKind::Groth16 => "Groth16 (Circom + snarkjs)"@,
            BackendKind::UltraHonk => "Noir + UltraHonk (Barretenberg)"@,
            BackendKind::Risc0 => "RISC Zero (zkVM)"@,
        }
    }

    /// The tools that the backend cannot do without.
    pub open spec fn required_tools(self) -> Seq<RequirementModel> {
        match self {
            BackendKind::Groth16 => seq![
                RequirementModel {
                    program: "circom"@,
                    tool_name: "circom"@,
                    install_instructions: "https://docs.circom.io/getting-started/installation/"@,
                },
                RequirementModel {
                    program: "snarkjs"@,
                    tool_name: "snarkjs"@,
                    install_instructions: "npm install -g snarkjs"@,
                },
                RequirementModel {
                    program: "node"@,
                    tool_name: "node"@,
                    install_instructions: "https://nodejs.org/"@,
                },
            ],
            BackendKind::UltraHonk => seq![
                RequirementModel {
                    program: "nargo"@,
                    tool_name: "nargo"@,
                    install_instructions: "curl -L https://raw.githubusercontent.com/noir-lang/noirup/main/install | bash && noirup"@,
                },
                RequirementModel {
                    program: "bb"@,
                    tool_name: "bb (Barretenberg)"@,
                    install_instructions: "curl -L https://raw.githubusercontent.com/AztecProtocol/aztec-packages/master/barretenberg/bbup/install | bash && bbup"@,
                },
            ],
            BackendKind::Risc0 => seq![
                RequirementModel {
                    program: "cargo-risczero"@,
                    tool_name: "cargo-risczero"@,
                    install_instructions: "curl -L https://risczero.com/install | bash && rzup install"@,
                },
                RequirementModel {
                    program: "docker"@,
                    tool_name: "docker"@,
                    install_instructions: "https://docs.docker.com/get-docker/ (needed for Groth16 proof wrapping)"@,
                },
            ],
        }
    }

    /// The tools that have a least recommended version, each with that version.
    pub open spec fn minimum_versions(self) -> Seq<(Seq<char>, Version)> {
        match self {
            BackendKind::UltraHonk => seq![
                ("nargo"@, Version { major: 0, minor: 36, patch: 0 }),
                ("bb"@, Version { major: 0, minor: 56, patch: 0 }),
            ],
            _ => Seq::empty(),
        }
    }

    /// The name that settings and command lines use for the backend.
    pub fn as_str(self) -> (s: &'static str)
        ensures
            s@ == self.name(),
    {
        match self {
            BackendKind::Groth16 => "groth16",
            BackendKind::UltraHonk => "ultrahonk",
            BackendKind::Risc0 => "risc0",
        }
    }

    /// The name to show to a user.
    pub fn title(self) -> (s: &'static str)
        ensures
            s@ == self.display_name(),
    {
        match self {
            BackendKind::Groth16 => "Groth16 (Circom + snarkjs)",
            BackendKind::UltraHonk => "Noir + UltraHonk (Barretenberg)",
            BackendKind::Risc0 => "RISC Zero (zkVM)",
        }
    }

    /// The backend that a name stands for.
    pub fn from_name(name: &str) -> (r: Option<BackendKind>)
        ensures
            match r {
                Some(kind) => kind.name() == name@,
                None => forall|kind: BackendKind| #[trigger] kind.name() != name@,
            },
    {
        if name.eq("groth16") {
            Some(BackendKind::Groth16)
        } else if name.eq("ultrahonk") {
            Some(BackendKind::UltraHonk)
        } else if name.eq("risc0") {
            Some(BackendKind::Risc0)
        } else {
            None
        }
    }

    /// The tools that the backend cannot do without.
    pub fn requirements(self) -> (r: Vec<Requirement>)
        ensures
            needs_of(r@) == self.required_tools(),
    {
        let mut r: Vec<Requirement> = Vec::new();
        match self {
            BackendKind::Groth16 => {
                r.push(
                    Requirement {
                        program: "circom",
                        tool_name: "circom",
                        install_instructions: "https://docs.circom.io/getting-started/installation/",
                    },
                );
                r.push(
                    Requirement {
                        program: "snarkjs",
                        tool_name: "snarkjs",
                        install_instructions: "npm install -g snarkjs",
                    },
                );
                r.push(
                    Requirement {
                        program: "node",
                        tool_name: "node",
                        install_instructions: "https://nodejs.org/",
                    },
                );
            },
            BackendKind::UltraHonk => {
                r.push(
                    Requirement {
                        program: "nargo",
                        tool_name: "nargo",
                        install_instructions: "curl -L https://raw.githubusercontent.com/noir-lang/noirup/main/install | bash && noirup",
                    },
                );
                r.push(
                    Requirement {
                        program: "bb",
                        tool_name: "bb (Barretenberg)",
                        install_instructions: "curl -L https://raw.githubusercontent.com/AztecProtocol/aztec-packages/master/barretenberg/bbup/install | bash && bbup",
                    },
                );
            },
            BackendKind::Risc0 => {
                r.push(
                    Requirement {
                        program: "cargo-risczero",
                        tool_name: "cargo-risczero",
                        install_instructions: "curl -L https://risczero.com/install | bash && rzup install",
                    },
                );
                r.push(
                    Requirement {
                        program: "docker",
                        tool_name: "docker",
                        install_instructions: "https://docs.docker.com/get-docker/ (needed for Groth16 proof wrapping)",
                    },
                );
            },
        }
        assert(needs_of(r@) =~= self.required_tools());
        r
    }

    /// The tools that have a least recommended version.
    pub fn minimums(self) -> (r: Vec<(&'static str, Version)>)
        ensures
            minimums_of(r@) == self.minimum_versions(),
    {
        let mut r: Vec<(&'static str, Version)> = Vec::new();
        match self {
            BackendKind::UltraHonk => {
                r.push(("nargo", Version { major: 0, minor: 36, patch: 0 }));
                r.push(("bb", Version { major: 0, minor: 56, patch: 0 }));
            },
            _ => {},
        }
        assert(minimums_of(r@) =~= self.minimum_versions());
        r
    }
}

/// The state of a build between two actions, whatever the backend.
#[derive(Debug)]
pub enum BuildState {
    Groth16(Groth16Build),
    UltraHonk(UltraHonkBuild),
    Risc0(Risc0Build),
}

/// The mathematical value of a [`BuildState`].
pub enum BuildStateModel {
    Groth16(Groth16BuildModel),
    UltraHonk(UltraHonkBuildModel),
    Risc0(Risc0BuildModel),
}

impl View for BuildState {
    type V = BuildStateModel;

    open spec fn view(&self) -> BuildStateModel {
        match self {
            BuildState::Groth16(s) => BuildStateModel::Groth16(s@),
            BuildState::UltraHonk(s) => BuildStateModel::UltraHonk(s@),
            BuildState::Risc0(s) => BuildStateModel::Risc0(s@),
        }
    }
}

/// The state of a proof between two actions, whatever the backend.
#[derive(Debug)]
pub enum ProveState {
    Groth16(Groth16Prove),
    UltraHonk(UltraHonkProve),
    Risc0(Risc0Prove),
}

/// The mathematical value of a [`ProveState`].
pub enum ProveStateModel {
    Groth16(Groth16ProveModel),
    UltraHonk(UltraHonkProveModel),
    Risc0(Risc0ProveModel),
}

impl View for ProveState {
    type V = ProveStateModel;

    open spec fn view(&self) -> ProveStateModel {
        match self {
            ProveState::Groth16(s) => ProveStateModel::Groth16(s@),
            ProveState::UltraHonk(s) => ProveStateModel::UltraHonk(s@),
            ProveState::Risc0(s) => ProveStateModel::Risc0(s@),
        }
    }
}

/// A step of a build.
pub type BuildStep = Step<BuildState, BuildArtifacts>;

/// The mathematical value of a [`BuildStep`].
pub type BuildStepModel = StepModel<BuildStateModel, BuildArtifactsModel>;

/// A step of a proof.
pub type ProveStep = Step<ProveState, ProofArtifacts>;

/// The mathematical value of a [`ProveStep`].
pub type ProveStepModel = StepModel<ProveStateModel, ProofArtifactsModel>;

/// A step with its state taken through `f`.
pub open spec fn with_state<S, R, T>(step: StepModel<S, T>, f: spec_fn(S) -> R) -> StepModel<R, T> {
    match step {
        StepModel::Perform { action, state } => StepModel::Perform { action, state: f(state) },
        StepModel::Finished(value) => StepModel::Finished(value),
        StepModel::Stopped(failure) => StepModel::Stopped(failure),
    }
}

/// The oracle hash of a project's settings for UltraHonk.
pub open spec fn oracle_hash_of(config: BackendConfig) -> Option<Seq<char>> {
    match config.ultrahonk {
        Some(c) => Some(c.oracle_hash@),
        None => None,
    }
}

/// A project's settings for RISC Zero.
pub open spec fn risc0_settings_of(config: BackendConfig) -> Option<Risc0Settings> {
    match config.risc0 {
        Some(c) => Some(
            Risc0Settings {
                guest_target: c.guest_target@,
                segment_limit_po2: c.segment_limit_po2,
                groth16_wrap: c.groth16_wrap,
            },
        ),
        None => None,
    }
}

/// The first step of a build with a backend.
pub open spec fn build_start(
    kind: BackendKind,
    project: Seq<char>,
    config: BackendConfig,
    profile: ProfileModel,
) -> BuildStepModel {
    match kind {
        BackendKind::Groth16 => with_state(
            groth16_build_start(project, config.groth16 is Some, profile),
            |s: Groth16BuildModel| BuildStateModel::Groth16(s),
        ),
        BackendKind::UltraHonk => with_state(
            ultrahonk_build_start(project, oracle_hash_of(config), profile),
            |s: UltraHonkBuildModel| BuildStateModel::UltraHonk(s),
        ),
        BackendKind::Risc0 => with_state(
            risc0_build_start(project, risc0_settings_of(config), profile),
            |s: Risc0BuildModel| BuildStateModel::Risc0(s),
        ),
    }
}

/// A build's next step after `event`.
pub open spec fn build_next(state: BuildStateModel, event: EventModel) -> BuildStepModel {
    match state {
        BuildStateModel::Groth16(s) => with_state(
            groth16_build_next(s, event),
            |s: Groth16BuildModel| BuildStateModel::Groth16(s),
        ),
        BuildStateModel::UltraHonk(s) => with_state(
            ultrahonk_build_next(s, event),
            |s: UltraHonkBuildModel| BuildStateModel::UltraHonk(s),
        ),
        BuildStateModel::Risc0(s) => with_state(
            risc0_build_next(s, event),
            |s: Risc0BuildModel| BuildStateModel::Risc0(s),
        ),
    }
}

/// The first step of a proof with a backend.
pub open spec fn prove_start(
    kind: BackendKind,
    project: Seq<char>,
    artifacts: BuildArtifactsModel,
    input: Seq<char>,
) -> ProveStepModel {
    match kind {
        BackendKind::Groth16 => with_state(
            groth16_prove_start(project, artifacts, input),
            |s: Groth16ProveModel| ProveStateModel::Groth16(s),
        ),
        BackendKind::UltraHonk => with_state(
            ultrahonk_prove_start(project, artifacts, input),
            |s: UltraHonkProveModel| ProveStateModel::UltraHonk(s),
        ),
        BackendKind::Risc0 => with_state(
            risc0_prove_start(project, input),
            |s: Risc0ProveModel| ProveStateModel::Risc0(s),
        ),
    }
}

/// A proof's next step after `event`.
pub open spec fn prove_next(state: ProveStateModel, event: EventModel) -> ProveStepModel {
    match state {
        ProveStateModel::Groth16(s) => with_state(
            groth16_prove_next(s, event),
            |s: Groth16ProveModel| ProveStateModel::Groth16(s),
        ),
        ProveStateModel::UltraHonk(s) => with_state(
            ultrahonk_prove_next(s, event),
            |s: UltraHonkProveModel| ProveStateModel::UltraHonk(s),
        ),
        ProveStateModel::Risc0(s) => with_state(
            risc0_prove_next(s, event),
            |s: Risc0ProveModel| ProveStateModel::Risc0(s),
        ),
    }
}

/// The number of public inputs as the estimator counts them: no more than
/// 32 bits can tell.
pub open spec fn counted(inputs: nat) -> u32 {
    if inputs > u32::MAX {
        u32::MAX
    } else {
        inputs as u32
    }
}

fn lift_groth16_build(step: Step<Groth16Build, BuildArtifacts>) -> (r: BuildStep)
    ensures
        r@ == with_state(step@, |s: Groth16BuildModel| BuildStateModel::Groth16(s)),
{
    match step {
        Step::Perform { action, state } => Step::Perform {
            action,
            state: BuildState::Groth16(state),
        },
        Step::Finished(value) => Step::Finished(value),
        Step::Stopped(error) => Step::Stopped(error),
    }
}

fn lift_ultrahonk_build(step: Step<UltraHonkBuild, BuildArtifacts>) -> (r: BuildStep)
    ensures
        r@ == with_state(step@, |s: UltraHonkBuildModel| BuildStateModel::UltraHonk(s)),
{
    match step {
        Step::Perform { action, state } => Step::Perform {
            action,
            state: BuildState::UltraHonk(state),
        },
        Step::Finished(value) => Step::Finished(value),
        Step::Stopped(error) => Step::Stopped(error),
    }
}

fn lift_risc0_build(step: Step<Risc0Build, BuildArtifacts>) -> (r: BuildStep)
    ensures
        r@ == with_state(step@, |s: Risc0BuildModel| BuildStateModel::Risc0(s)),
{
    match step {
        Step::Perform { action, state } => Step::Perform { action, state: BuildState::Risc0(state) },
        Step::Finished(value) => Step::Finished(value),
        Step::Stopped(error) => Step::Stopped(error),
    }
}

fn lift_groth16_prove(step: Step<Groth16Prove, ProofArtifacts>) -> (r: ProveStep)
    ensures
        r@ == with_state(step@, |s: Groth16ProveModel| ProveStateModel::Groth16(s)),
{
    match step {
        Step::Perform { action, state } => Step::Perform {
            action,
            state: ProveState::Groth16(state),
        },
        Step::Finished(value) => Step::Finished(value),
        Step::Stopped(error) => Step::Stopped(error),
    }
}

fn lift_ultrahonk_prove(step: Step<UltraHonkProve, ProofArtifacts>) -> (r: ProveStep)
    ensures
        r@ == with_state(step@, |s: UltraHonkProveModel| ProveStateModel::UltraHonk(s)),
{
    match step {
        Step::Perform { action, state } => Step::Perform {
            action,
            state: ProveState::UltraHonk(state),
        },
        Step::Finished(value) => Step::Finished(value),
        Step::Stopped(error) => Step::Stopped(error),
    }
}

fn lift_risc0_prove(step: Step<Risc0Prove, ProofArtifacts>) -> (r: ProveStep)
    ensures
        r@ == with_state(step@, |s: Risc0ProveModel| ProveStateModel::Risc0(s)),
{
    match step {
        Step::Perform { action, state } => Step::Perform { action, state: ProveState::Risc0(state) },
        Step::Finished(value) => Step::Finished(value),
        Step::Stopped(error) => Step::Stopped(error),
    }
}

/// The first step of a build with a backend.
pub fn start_build(
    kind: BackendKind,
    project_dir: &str,
    config: &BackendConfig,
    profile: &OptimizationProfile,
) -> (step: BuildStep)
    ensures
        step@ == build_start(kind, project_dir@, *config, profile@),
{
    match kind {
        BackendKind::Groth16 => lift_groth16_build(
            Groth16Build::start(project_dir, config.groth16.is_some(), profile),
        ),
        BackendKind::UltraHonk => {
            let hash = match &config.ultrahonk {
                Some(c) => Some(c.oracle_hash.as_str()),
                None => None,
            };
            lift_ultrahonk_build(UltraHonkBuild::start(project_dir, hash, profile))
        },
        BackendKind::Risc0 => lift_risc0_build(
            Risc0Build::start(project_dir, config.risc0.as_ref(), profile),
        ),
    }
}

/// A build's next step after `event`, the event of the action that the
/// last step asked for.
pub fn advance_build(state: BuildState, event: Event) -> (step: BuildStep)
    ensures
        step@ == build_next(state@, event@),
{
    match state {
        BuildState::Groth16(s) => lift_groth16_build(s.advance(event)),
        BuildState::UltraHonk(s) => lift_ultrahonk_build(s.advance(event)),
        BuildState::Risc0(s) => lift_risc0_build(s.advance(event)),
    }
}

/// The first step of a proof with a backend.
pub fn start_prove(
    kind: BackendKind,
    project_dir: &str,
    build_artifacts: &BuildArtifacts,
    input_path: &str,
) -> (step: ProveStep)
    ensures
        step@ == prove_start(kind, project_dir@, build_artifacts@, input_path@),
{
    match kind {
        BackendKind::Groth16 => lift_groth16_prove(
            Groth16Prove::start(project_dir, build_artifacts, input_path),
        ),
        BackendKind::UltraHonk => lift_ultrahonk_prove(
            UltraHonkProve::start(project_dir, build_artifacts, input_path),
        ),
        BackendKind::Risc0 => lift_risc0_prove(Risc0Prove::start(project_dir, input_path)),
    }
}

/// A proof's next step after `event`, the event of the action that the
/// last step asked for.
pub fn advance_prove(state: ProveState, event: Event) -> (step: ProveStep)
    ensures
        step@ == prove_next(state@, event@),
{
    match state {
        ProveState::Groth16(s) => lift_groth16_prove(s.advance(event)),
        ProveState::UltraHonk(s) => lift_ultrahonk_prove(s.advance(event)),
        ProveState::Risc0(s) => lift_risc0_prove(s.advance(event)),
    }
}

/// Whether a result tells exactly the missing ones among the tools that a
/// backend cannot do without, for some way in which the tools were found or
/// not.
pub open spec fn reports_prerequisites(r: Result<(), Vec<PrerequisiteError>>, kind: BackendKind) -> bool {
    exists|present: Seq<bool>|
        present.len() == kind.required_tools().len() && #[trigger] is_report(
            r,
            kind.required_tools(),
            present,
        )
}

/// Looks for the tools that a backend cannot do without and tells which
/// are missing.
pub fn check_prerequisites_of(kind: BackendKind) -> (r: Result<(), Vec<PrerequisiteError>>)
    ensures
        reports_prerequisites(r, kind),
{
    let requirements = kind.requirements();
    let r = check_tools(&requirements);
    proof {
        let present = choose|present: Seq<bool>|
            present.len() == requirements@.len() && #[trigger] is_report(
                r,
                needs_of(requirements@),
                present,
            );
        assert(needs_of(requirements@).len() == requirements@.len());
        assert(present.len() == kind.required_tools().len() && is_report(
            r,
            kind.required_tools(),
            present,
        ));
    }
    r
}

/// The cost of verifying a proof with a backend: the static estimate for
/// the public inputs that the proof has.
pub fn estimate_for(kind: BackendKind, proof_artifacts: &ProofArtifacts) -> (estimate: CostEstimate)
    ensures
        estimate@ == static_model(kind.name(), counted(proof_artifacts@.public_inputs.len())),
{
    let len = proof_artifacts.public_inputs.len();
    let inputs: u32 = if len > 0xffff_ffff {
        0xffff_ffff
    } else {
        len as u32
    };
    static_estimate(kind.as_str(), inputs)
}

/// What every proving backend does, each in its own way: it tells what it
/// needs, builds a project, proves an input and estimates what the
/// verification costs.
///
/// A build and a proof are worked step by step. `build` and `prove` hand
/// out the first step; the driver performs the action of a step and hands
/// its event to [`advance_build`] or [`advance_prove`].
pub trait ZkBackend {
    /// Which of the backends this is.
    spec fn kind(&self) -> BackendKind;

    /// The name of the backend: `groth16`, `ultrahonk` or `risc0`.
    fn name(&self) -> (s: &'static str)
        ensures
            s@ == self.kind().name(),
    ;

    /// The name to show to a user.
    fn display_name(&self) -> (s: &'static str)
        ensures
            s@ == self.kind().display_name(),
    ;

    /// Looks for the tools that the backend cannot do without. Each one
    /// that is missing is reported, with the way to get it.
    fn check_prerequisites(&self) -> (r: Result<(), Vec<PrerequisiteError>>)
        ensures
            reports_prerequisites(r, self.kind()),
    ;

    /// The tools whose versions are worth a look, each with the least
    /// version that is recommended.
    fn minimum_versions(&self) -> (r: Vec<(&'static str, Version)>)
        ensures
            minimums_of(r@) == self.kind().minimum_versions(),
    ;

    /// Holds the versions that the tools were found in against the least
    /// recommended ones; `found` goes by the order of `minimum_versions`. A
    /// tool whose version could not be told is passed over.
    fn check_versions(&self, found: &Vec<Option<Version>>) -> (warnings: Vec<VersionWarning>)
        ensures
            warnings_of(warnings@) == version_warnings(
                self.kind().minimum_versions(),
                found@,
                self.kind().minimum_versions().len(),
            ),
    ;

    /// Sets up what the backend needs in a new project beyond the files
    /// that every project has. None of the backends needs anything.
    fn init_project(&self, project_dir: &str, config: &ProjectConfig) -> (r: Result<
        (),
        StellarZkError,
    >)
        ensures
            r is Ok,
    ;

    /// The first step of a build: the circuit or program is compiled, the
    /// keys are made and the verifier contract is built.
    fn build(&self, project_dir: &str, config: &BackendConfig, profile: &OptimizationProfile) -> (step:
        BuildStep)
        ensures
            step@ == build_start(self.kind(), project_dir@, *config, profile@),
    ;

    /// The first step of a proof for the input at `input_path`.
    fn prove(&self, project_dir: &str, build_artifacts: &BuildArtifacts, input_path: &str) -> (step:
        ProveStep)
        ensures
            step@ == prove_start(self.kind(), project_dir@, build_artifacts@, input_path@),
    ;

    /// Estimates what the verification of a proof costs on chain.
    fn estimate_cost(
        &self,
        project_dir: &str,
        proof_artifacts: &ProofArtifacts,
        build_artifacts: &BuildArtifacts,
    ) -> (r: Result<CostEstimate, StellarZkError>)
        ensures
            r matches Ok(estimate) && estimate@ == static_model(
                self.kind().name(),
                counted(proof_artifacts@.public_inputs.len()),
            ),
    ;
}

} // verus!
