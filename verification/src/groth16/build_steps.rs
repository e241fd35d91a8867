//! The build of a Groth16 project, step by step.
//!
//! The circuit is compiled. A Powers of Tau file is made for development
//! where the project has none. The trusted setup leaves the proving key, the
//! verification key is exported and converted for the on-chain verifier, and
//! the verifier contract goes through the pipeline.

use crate::backend::{BuildArtifacts, BuildArtifactsModel};
use crate::error::{Failure, StellarZkError};
use crate::groth16::circuit::{
    circom_call, circom_telling, compile_circom, compile_circom_telling, r1cs_of, r1cs_path,
};
use crate::groth16::prover::{
    check_snarkjs, convert_vk_to_soroban, converted_vk, dev_ptau_calls, generate_dev_ptau,
    generate_keys, key_calls, parse_error, ptau_contributed_of, ptau_new_of, snarkjs_failure,
    unparsed,
};
use crate::path::{file_stem, join, joined, stem_of, with_extension};
use crate::pipeline::{
    build_and_optimize, pipeline_next, pipeline_start, stray, stray_step, PipelineModel,
    PipelineState,
};
use crate::process::{
    calls_of, check_done, check_tool, file_failure, tool_failure, Action, ActionModel, Event,
    EventModel, Step, StepModel,
};
use crate::profile::{OptimizationProfile, ProfileModel};
use vstd::prelude::*;

verus! {

/// What the build waits for.
#[derive(Debug, Clone, Copy, PartialEq, Eq, Structural)]
pub enum Groth16BuildStage {
    /// The target directory is made.
    MakeTarget,
    /// `circom` runs.
    Compile,
    /// Whether the project has a Powers of Tau file.
    ProbePtau,
    /// The new ceremony.
    PtauNew,
    /// The contribution to it.
    PtauContribute,
    /// The preparation of the second phase.
    PtauPrepare,
    /// The file of the new ceremony is removed.
    CleanNew,
    /// The file of the contribution is removed.
    CleanContributed,
    /// The trusted setup.
    Setup,
    /// The export of the verification key.
    ExportKey,
    /// The exported key is read.
    ReadKey,
    /// The converted key is written.
    WriteKey,
    /// The verifier contract goes through the pipeline.
    Pipeline,
}

/// The state of a build between two actions.
#[derive(Debug)]
pub struct Groth16Build {
    pub stage: Groth16BuildStage,
    pub project_dir: String,
    pub profile: OptimizationProfile,
    /// The state of the pipeline, once it runs.
    pub pipeline: Option<PipelineState>,
}

/// The mathematical value of a [`Groth16Build`].
pub struct Groth16BuildModel {
    pub stage: Groth16BuildStage,
    pub project_dir: Seq<char>,
    pub profile: ProfileModel,
    pub pipeline: Option<PipelineModel>,
}

/// The value of a pipeline state that may be missing.
pub open spec fn pipeline_of(state: Option<PipelineState>) -> Option<PipelineModel> {
    match state {
        Some(p) => Some(p@),
        None => None,
    }
}

impl View for Groth16Build {
    type V = Groth16BuildModel;

    open spec fn view(&self) -> Groth16BuildModel {
        Groth16BuildModel {
            stage: self.stage,
            project_dir: self.project_dir@,
            profile: self.profile@,
            pipeline: pipeline_of(self.pipeline),
        }
    }
}

/// A step of the build.
pub type Groth16BuildStep = Step<Groth16Build, BuildArtifacts>;

/// The mathematical value of a [`Groth16BuildStep`].
pub type Groth16BuildStepModel = StepModel<Groth16BuildModel, BuildArtifactsModel>;

/// The directory of all that a build makes.
pub open spec fn target_of(project: Seq<char>) -> Seq<char> {
    joined(project, "target"@)
}

/// The circuit of the project.
pub open spec fn circuit_of(project: Seq<char>) -> Seq<char> {
    joined(project, "circuits/main.circom"@)
}

/// The name of a circuit: the name of its file without the extension, and
/// `main` where that is empty.
pub open spec fn circuit_name_of(path: Seq<char>) -> Seq<char> {
    if stem_of(path).len() == 0 {
        "main"@
    } else {
        stem_of(path)
    }
}

/// The constraints of the project's circuit.
pub open spec fn project_r1cs(project: Seq<char>) -> Seq<char> {
    r1cs_of(target_of(project), circuit_name_of(circuit_of(project)))
}

/// The Powers of Tau file of the project.
pub open spec fn ptau_of(project: Seq<char>) -> Seq<char> {
    joined(target_of(project), "pot12_final.ptau"@)
}

/// The proving key.
pub open spec fn zkey_of(project: Seq<char>) -> Seq<char> {
    joined(target_of(project), "circuit.zkey"@)
}

/// The verification key as `snarkjs` exports it.
pub open spec fn vk_json_of(project: Seq<char>) -> Seq<char> {
    joined(target_of(project), "verification_key.json"@)
}

/// The verification key as the on-chain verifier reads it.
pub open spec fn vk_bin_of(project: Seq<char>) -> Seq<char> {
    joined(target_of(project), "verification.key"@)
}

/// The source of the verifier contract.
pub open spec fn contract_dir_of(project: Seq<char>) -> Seq<char> {
    joined(project, "contracts/verifier"@)
}

/// The runs that make the keys of the project.
pub open spec fn project_key_calls(project: Seq<char>) -> Seq<crate::process::ToolCallModel> {
    key_calls(project_r1cs(project), ptau_of(project), zkey_of(project), vk_json_of(project))
}

/// The step that asks for `action` and waits for it at `stage`.
pub open spec fn ask(state: Groth16BuildModel, stage: Groth16BuildStage, action: ActionModel) -> Groth16BuildStepModel {
    StepModel::Perform { action, state: Groth16BuildModel { stage, ..state } }
}

/// The step for a failure, and `otherwise` where there is none.
pub open spec fn unless(failure: Option<Failure>, otherwise: Groth16BuildStepModel) -> Groth16BuildStepModel {
    match failure {
        Some(f) => StepModel::Stopped(f),
        None => otherwise,
    }
}

/// The artifacts of a build whose contract binary is at `wasm`.
pub open spec fn groth16_artifacts(project: Seq<char>, wasm: Seq<char>) -> BuildArtifactsModel {
    BuildArtifactsModel {
        circuit_artifact: project_r1cs(project),
        verifier_wasm: wasm,
        proving_key: Some(zkey_of(project)),
        verification_key: vk_bin_of(project),
    }
}

/// The first step of a build. A project without settings for Groth16 is
/// turned down before anything is touched.
pub open spec fn groth16_build_start(project: Seq<char>, configured: bool, profile: ProfileModel) -> Groth16BuildStepModel {
    if !configured {
        StepModel::Stopped(Failure::CircuitCompilation("missing groth16 config"@))
    } else {
        StepModel::Perform {
            action: ActionModel::CreateDirAll { path: target_of(project) },
            state: Groth16BuildModel {
                stage: Groth16BuildStage::MakeTarget,
                project_dir: project,
                profile,
                pipeline: None,
            },
        }
    }
}

/// The step that carries the pipeline's step into the build.
pub open spec fn lifted(
    state: Groth16BuildModel,
    step: StepModel<PipelineModel, crate::pipeline::WasmOutputModel>,
) -> Groth16BuildStepModel {
    match step {
        StepModel::Perform { action, state: pipeline } => StepModel::Perform {
            action,
            state: Groth16BuildModel {
                stage: Groth16BuildStage::Pipeline,
                pipeline: Some(pipeline),
                ..state
            },
        },
        StepModel::Finished(output) => StepModel::Finished(
            groth16_artifacts(state.project_dir, output.path),
        ),
        StepModel::Stopped(failure) => StepModel::Stopped(failure),
    }
}

/// The build's next step after `event`.
pub open spec fn groth16_build_next(state: Groth16BuildModel, event: EventModel) -> Groth16BuildStepModel {
    let project = state.project_dir;
    match state.stage {
        Groth16BuildStage::MakeTarget => unless(
            file_failure(event),
            ask(
                state,
                Groth16BuildStage::Compile,
                ActionModel::Run(circom_call(circuit_of(project), target_of(project))),
            ),
        ),
        Groth16BuildStage::Compile => unless(
            tool_failure(event, circom_telling()),
            ask(
                state,
                Groth16BuildStage::ProbePtau,
                ActionModel::Exists { path: ptau_of(project) },
            ),
        ),
        Groth16BuildStage::ProbePtau => match event {
            EventModel::Exists(found) => if found {
                ask(
                    state,
                    Groth16BuildStage::Setup,
                    ActionModel::Run(project_key_calls(project)[0]),
                )
            } else {
                ask(
                    state,
                    Groth16BuildStage::PtauNew,
                    ActionModel::Run(dev_ptau_calls(ptau_of(project))[0]),
                )
            },
            _ => stray(event),
        },
        Groth16BuildStage::PtauNew => unless(
            snarkjs_failure(event, "powersoftau"@),
            ask(
                state,
                Groth16BuildStage::PtauContribute,
                ActionModel::Run(dev_ptau_calls(ptau_of(project))[1]),
            ),
        ),
        Groth16BuildStage::PtauContribute => unless(
            snarkjs_failure(event, "powersoftau"@),
            ask(
                state,
                Groth16BuildStage::PtauPrepare,
                ActionModel::Run(dev_ptau_calls(ptau_of(project))[2]),
            ),
        ),
        Groth16BuildStage::PtauPrepare => unless(
            snarkjs_failure(event, "powersoftau"@),
            ask(
                state,
                Groth16BuildStage::CleanNew,
                ActionModel::Remove { path: ptau_new_of(ptau_of(project)) },
            ),
        ),
        Groth16BuildStage::CleanNew => ask(
            state,
            Groth16BuildStage::CleanContributed,
            ActionModel::Remove { path: ptau_contributed_of(ptau_of(project)) },
        ),
        Groth16BuildStage::CleanContributed => ask(
            state,
            Groth16BuildStage::Setup,
            ActionModel::Run(project_key_calls(project)[0]),
        ),
        Groth16BuildStage::Setup => unless(
            snarkjs_failure(event, "groth16"@),
            ask(
                state,
                Groth16BuildStage::ExportKey,
                ActionModel::Run(project_key_calls(project)[1]),
            ),
        ),
        Groth16BuildStage::ExportKey => unless(
            snarkjs_failure(event, "zkey"@),
            ask(
                state,
                Groth16BuildStage::ReadKey,
                ActionModel::ReadJson { path: vk_json_of(project) },
            ),
        ),
        Groth16BuildStage::ReadKey => match event {
            EventModel::Json(doc) => match converted_vk(doc) {
                Ok(bytes) => ask(
                    state,
                    Groth16BuildStage::WriteKey,
                    ActionModel::Write { path: vk_bin_of(project), content: bytes },
                ),
                Err(failure) => StepModel::Stopped(failure),
            },
            EventModel::Malformed { message } => StepModel::Stopped(
                unparsed("verification_key.json"@, message),
            ),
            _ => stray(event),
        },
        Groth16BuildStage::WriteKey => unless(
            file_failure(event),
            lifted(state, pipeline_start(contract_dir_of(project), state.profile)),
        ),
        Groth16BuildStage::Pipeline => match state.pipeline {
            Some(pipeline) => lifted(state, pipeline_next(pipeline, event)),
            None => StepModel::Stopped(Failure::Other(crate::process::out_of_turn())),
        },
    }
}

/// A key that cannot be converted is never written: the build asks to
/// write the verification key only with the bytes that the conversion gave.
pub proof fn lemma_only_converted_keys_are_written(state: Groth16BuildModel, event: EventModel)
    requires
        state.stage == Groth16BuildStage::ReadKey,
    ensures
        groth16_build_next(state, event) matches StepModel::Perform { action, .. } ==> (
        event matches EventModel::Json(doc) && converted_vk(doc) is Ok && action
            == (ActionModel::Write {
            path: vk_bin_of(state.project_dir),
            content: converted_vk(doc)->Ok_0,
        })),
{
}

/// The name of a circuit.
pub fn circuit_name(path: &str) -> (name: String)
    ensures
        name@ == circuit_name_of(path@),
{
    let stem = file_stem(path);
    if stem.as_str().unicode_len() == 0 {
        "main".to_owned()
    } else {
        stem
    }
}

/// The paths of a Groth16 project.
pub struct Groth16Paths {
    pub target: String,
    pub circuit: String,
    pub r1cs: String,
    pub ptau: String,
    pub zkey: String,
    pub vk_json: String,
    pub vk_bin: String,
    pub contract_dir: String,
}

impl Groth16Paths {
    /// The paths of the project at `project_dir`.
    pub fn of(project_dir: &str) -> (paths: Groth16Paths)
        ensures
            paths.target@ == target_of(project_dir@),
            paths.circuit@ == circuit_of(project_dir@),
            paths.r1cs@ == project_r1cs(project_dir@),
            paths.ptau@ == ptau_of(project_dir@),
            paths.zkey@ == zkey_of(project_dir@),
            paths.vk_json@ == vk_json_of(project_dir@),
            paths.vk_bin@ == vk_bin_of(project_dir@),
            paths.contract_dir@ == contract_dir_of(project_dir@),
    {
        let target = join(project_dir, "target");
        let circuit = join(project_dir, "circuits/main.circom");
        let name = circuit_name(circuit.as_str());
        Groth16Paths {
            r1cs: r1cs_path(target.as_str(), name.as_str()),
            ptau: join(target.as_str(), "pot12_final.ptau"),
            zkey: join(target.as_str(), "circuit.zkey"),
            vk_json: join(target.as_str(), "verification_key.json"),
            vk_bin: join(target.as_str(), "verification.key"),
            contract_dir: join(project_dir, "contracts/verifier"),
            target,
            circuit,
        }
    }
}

impl Groth16Build {
    /// The first step of the build of the project at `project_dir`.
    pub fn start(project_dir: &str, configured: bool, profile: &OptimizationProfile) -> (step:
        Groth16BuildStep)
        ensures
            step@ == groth16_build_start(project_dir@, configured, profile@),
    {
        if !configured {
            return Step::Stopped(
                StellarZkError::CircuitCompilation("missing groth16 config".to_owned()),
            );
        }
        let paths = Groth16Paths::of(project_dir);
        Step::Perform {
            action: Action::CreateDirAll { path: paths.target },
            state: Groth16Build {
                stage: Groth16BuildStage::MakeTarget,
                project_dir: project_dir.to_owned(),
                profile: profile.duplicate(),
                pipeline: None,
            },
        }
    }

    /// The step that asks for `action` and waits for it at `stage`.
    fn ask(self, stage: Groth16BuildStage, action: Action) -> (step: Groth16BuildStep)
        ensures
            step@ == ask(self@, stage, action@),
    {
        Step::Perform { action, state: Groth16Build { stage, ..self } }
    }

    /// The step that asks for the run at `index` of those that make the
    /// Powers of Tau file.
    fn ask_ptau(self, stage: Groth16BuildStage, index: usize) -> (step: Groth16BuildStep)
        requires
            index < 3,
        ensures
            step@ == ask(
                self@,
                stage,
                ActionModel::Run(dev_ptau_calls(ptau_of(self@.project_dir))[index as int]),
            ),
    {
        let paths = Groth16Paths::of(self.project_dir.as_str());
        let mut calls = generate_dev_ptau(paths.ptau.as_str());
        assert(dev_ptau_calls(paths.ptau@).len() == 3);
        assert(calls_of(calls@).len() == calls@.len());
        assert(calls_of(calls@)[index as int] == calls@[index as int]@);
        let call = calls.remove(index);
        self.ask(stage, Action::Run(call))
    }

    /// The step that asks for the run at `index` of those that make the keys.
    fn ask_keys(self, stage: Groth16BuildStage, index: usize) -> (step: Groth16BuildStep)
        requires
            index < 2,
        ensures
            step@ == ask(
                self@,
                stage,
                ActionModel::Run(project_key_calls(self@.project_dir)[index as int]),
            ),
    {
        let paths = Groth16Paths::of(self.project_dir.as_str());
        let mut calls = generate_keys(
            paths.r1cs.as_str(),
            paths.ptau.as_str(),
            paths.zkey.as_str(),
            paths.vk_json.as_str(),
        );
        assert(project_key_calls(self@.project_dir).len() == 2);
        assert(calls_of(calls@).len() == calls@.len());
        assert(calls_of(calls@)[index as int] == calls@[index as int]@);
        let call = calls.remove(index);
        self.ask(stage, Action::Run(call))
    }

    /// The step that carries the pipeline's step into the build.
    fn lift(self, step: crate::pipeline::PipelineStep) -> (r: Groth16BuildStep)
        ensures
            r@ == lifted(self@, step@),
    {
        match step {
            Step::Perform { action, state } => Step::Perform {
                action,
                state: Groth16Build {
                    stage: Groth16BuildStage::Pipeline,
                    pipeline: Some(state),
                    ..self
                },
            },
            Step::Finished(output) => {
                let paths = Groth16Paths::of(self.project_dir.as_str());
                Step::Finished(
                    BuildArtifacts {
                        circuit_artifact: paths.r1cs,
                        verifier_wasm: output.path,
                        proving_key: Some(paths.zkey),
                        verification_key: paths.vk_bin,
                    },
                )
            },
            Step::Stopped(error) => Step::Stopped(error),
        }
    }

    /// The build's next step after `event`, the event of the action that
    /// the last step asked for.
    pub fn advance(self, event: Event) -> (step: Groth16BuildStep)
        ensures
            step@ == groth16_build_next(self@, event@),
    {
        let paths = Groth16Paths::of(self.project_dir.as_str());
        match self.stage {
            Groth16BuildStage::MakeTarget => match check_done(event) {
                Some(error) => Step::Stopped(error),
                None => {
                    let call = compile_circom(paths.circuit.as_str(), paths.target.as_str());
                    self.ask(Groth16BuildStage::Compile, Action::Run(call))
                },
            },
            Groth16BuildStage::Compile => match check_tool(event, &compile_circom_telling()) {
                Some(error) => Step::Stopped(error),
                None => self.ask(Groth16BuildStage::ProbePtau, Action::Exists { path: paths.ptau }),
            },
            Groth16BuildStage::ProbePtau => match event {
                Event::Exists(found) => if found {
                    self.ask_keys(Groth16BuildStage::Setup, 0)
                } else {
                    self.ask_ptau(Groth16BuildStage::PtauNew, 0)
                },
                other => stray_step(other),
            },
            Groth16BuildStage::PtauNew => match check_snarkjs(event, "powersoftau") {
                Some(error) => Step::Stopped(error),
                None => self.ask_ptau(Groth16BuildStage::PtauContribute, 1),
            },
            Groth16BuildStage::PtauContribute => match check_snarkjs(event, "powersoftau") {
                Some(error) => Step::Stopped(error),
                None => self.ask_ptau(Groth16BuildStage::PtauPrepare, 2),
            },
            Groth16BuildStage::PtauPrepare => match check_snarkjs(event, "powersoftau") {
                Some(error) => Step::Stopped(error),
                None => {
                    let path = with_extension(paths.ptau.as_str(), "ptau.tmp");
                    self.ask(Groth16BuildStage::CleanNew, Action::Remove { path })
                },
            },
            Groth16BuildStage::CleanNew => {
                let path = with_extension(paths.ptau.as_str(), "ptau.contributed");
                self.ask(Groth16BuildStage::CleanContributed, Action::Remove { path })
            },
            Groth16BuildStage::CleanContributed => self.ask_keys(Groth16BuildStage::Setup, 0),
            Groth16BuildStage::Setup => match check_snarkjs(event, "groth16") {
                Some(error) => Step::Stopped(error),
                None => self.ask_keys(Groth16BuildStage::ExportKey, 1),
            },
            Groth16BuildStage::ExportKey => match check_snarkjs(event, "zkey") {
                Some(error) => Step::Stopped(error),
                None => self.ask(
                    Groth16BuildStage::ReadKey,
                    Action::ReadJson { path: paths.vk_json },
                ),
            },
            Groth16BuildStage::ReadKey => match event {
                Event::Json(doc) => match convert_vk_to_soroban(&doc) {
                    Ok(content) => self.ask(
                        Groth16BuildStage::WriteKey,
                        Action::Write { path: paths.vk_bin, content },
                    ),
                    Err(error) => Step::Stopped(error),
                },
                Event::Malformed { message } => Step::Stopped(
                    parse_error("verification_key.json", message.as_str()),
                ),
                other => stray_step(other),
            },
            Groth16BuildStage::WriteKey => match check_done(event) {
                Some(error) => Step::Stopped(error),
                None => {
                    let first = build_and_optimize(paths.contract_dir.as_str(), &self.profile);
                    self.lift(first)
                },
            },
            Groth16BuildStage::Pipeline => {
                let mut state = self;
                match state.pipeline.take() {
                    Some(pipeline) => {
                        let next = pipeline.advance(event);
                        state.lift(next)
                    },
                    None => Step::Stopped(crate::process::unexpected()),
                }
            },
        }
    }
}

} // verus!
