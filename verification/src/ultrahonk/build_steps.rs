//! The build of an UltraHonk project, step by step.
//!
//! `nargo` compiles the circuit, `bb` makes the verification key, the
//! oracle hash is kept for the proofs to come, and the verifier contract
//! goes through the pipeline. There is no key for each circuit to set up.

use crate::backend::{BuildArtifacts, BuildArtifactsModel};
use crate::error::{Failure, StellarZkError};
use crate::json::{entry_views, JsonModel, JsonValue};
use crate::path::{join, joined};
use crate::pipeline::{
    build_and_optimize, pipeline_next, pipeline_start, PipelineModel, PipelineState, PipelineStep,
    PipelineStepModel,
};
use crate::process::{
    check_done, check_tool, file_failure, out_of_turn, tool_failure, unexpected, Action,
    ActionModel, Blame, Event, EventModel, Step, StepModel,
};
use crate::profile::{OptimizationProfile, ProfileModel};
use crate::ultrahonk::nargo::{
    bb_telling, compile, compile_call, nargo_telling, plain_telling, write_vk, write_vk_call,
};
use vstd::prelude::*;

verus! {

/// What the build waits for.
#[derive(Debug, Clone, Copy, PartialEq, Eq, Structural)]
pub enum UltraHonkBuildStage {
    /// The target directory is made.
    MakeTarget,
    /// `nargo` compiles the circuit.
    Compile,
    /// `bb` makes the verification key.
    WriteVk,
    /// The oracle hash is kept.
    KeepOracle,
    /// The verifier contract goes through the pipeline.
    Pipeline,
}

/// The state of a build between two actions.
#[derive(Debug)]
pub struct UltraHonkBuild {
    pub stage: UltraHonkBuildStage,
    pub project_dir: String,
    pub oracle_hash: String,
    pub profile: OptimizationProfile,
    /// The state of the pipeline, once it runs.
    pub pipeline: Option<PipelineState>,
}

/// The mathematical value of an [`UltraHonkBuild`].
pub struct UltraHonkBuildModel {
    pub stage: UltraHonkBuildStage,
    pub project_dir: Seq<char>,
    pub oracle_hash: Seq<char>,
    pub profile: ProfileModel,
    pub pipeline: Option<PipelineModel>,
}

impl View for UltraHonkBuild {
    type V = UltraHonkBuildModel;

    open spec fn view(&self) -> UltraHonkBuildModel {
        UltraHonkBuildModel {
            stage: self.stage,
            project_dir: self.project_dir@,
            oracle_hash: self.oracle_hash@,
            profile: self.profile@,
            pipeline: crate::groth16::build_steps::pipeline_of(self.pipeline),
        }
    }
}

/// A step of the build.
pub type UltraHonkBuildStep = Step<UltraHonkBuild, BuildArtifacts>;

/// The mathematical value of an [`UltraHonkBuildStep`].
pub type UltraHonkBuildStepModel = StepModel<UltraHonkBuildModel, BuildArtifactsModel>;

/// The directory of all that a build makes.
pub open spec fn target_of(project: Seq<char>) -> Seq<char> {
    joined(project, "target"@)
}

/// The compiled circuit.
pub open spec fn acir_of(project: Seq<char>) -> Seq<char> {
    joined(target_of(project), "circuits.json"@)
}

/// The verification key.
pub open spec fn vk_of(project: Seq<char>) -> Seq<char> {
    joined(target_of(project), "vk"@)
}

/// Where the oracle hash is kept between the build and the proofs.
pub open spec fn kept_settings_of(project: Seq<char>) -> Seq<char> {
    joined(target_of(project), "ultrahonk_config.json"@)
}

/// The source of the verifier contract.
pub open spec fn contract_dir_of(project: Seq<char>) -> Seq<char> {
    joined(project, "contracts/verifier"@)
}

/// The settings that are kept for the proofs.
pub open spec fn kept_settings(oracle_hash: Seq<char>) -> JsonModel {
    JsonModel::Object(seq![("oracle_hash"@, JsonModel::Text(oracle_hash))])
}

/// The step that asks for `action` and waits for it at `stage`.
pub open spec fn ask(state: UltraHonkBuildModel, stage: UltraHonkBuildStage, action: ActionModel) -> UltraHonkBuildStepModel {
    StepModel::Perform { action, state: UltraHonkBuildModel { stage, ..state } }
}

/// The step for a failure, and `otherwise` where there is none.
pub open spec fn unless(failure: Option<Failure>, otherwise: UltraHonkBuildStepModel) -> UltraHonkBuildStepModel {
    match failure {
        Some(f) => StepModel::Stopped(f),
        None => otherwise,
    }
}

/// The artifacts of a build whose contract binary is at `wasm`. There is
/// no proving key.
pub open spec fn ultrahonk_artifacts(project: Seq<char>, wasm: Seq<char>) -> BuildArtifactsModel {
    BuildArtifactsModel {
        circuit_artifact: acir_of(project),
        verifier_wasm: wasm,
        proving_key: None,
        verification_key: vk_of(project),
    }
}

/// The step that carries the pipeline's step into the build.
pub open spec fn lifted(state: UltraHonkBuildModel, step: PipelineStepModel) -> UltraHonkBuildStepModel {
    match step {
        StepModel::Perform { action, state: pipeline } => StepModel::Perform {
            action,
            state: UltraHonkBuildModel {
                stage: UltraHonkBuildStage::Pipeline,
                pipeline: Some(pipeline),
                ..state
            },
        },
        StepModel::Finished(output) => StepModel::Finished(
            ultrahonk_artifacts(state.project_dir, output.path),
        ),
        StepModel::Stopped(failure) => StepModel::Stopped(failure),
    }
}

/// The first step of a build. A project without settings for UltraHonk is
/// turned down before anything is touched.
pub open spec fn ultrahonk_build_start(
    project: Seq<char>,
    oracle_hash: Option<Seq<char>>,
    profile: ProfileModel,
) -> UltraHonkBuildStepModel {
    match oracle_hash {
        None => StepModel::Stopped(Failure::CircuitCompilation("missing ultrahonk config"@)),
        Some(hash) => StepModel::Perform {
            action: ActionModel::CreateDirAll { path: target_of(project) },
            state: UltraHonkBuildModel {
                stage: UltraHonkBuildStage::MakeTarget,
                project_dir: project,
                oracle_hash: hash,
                profile,
                pipeline: None,
            },
        },
    }
}

/// The build's next step after `event`.
pub open spec fn ultrahonk_build_next(state: UltraHonkBuildModel, event: EventModel) -> UltraHonkBuildStepModel {
    let project = state.project_dir;
    match state.stage {
        UltraHonkBuildStage::MakeTarget => unless(
            file_failure(event),
            ask(state, UltraHonkBuildStage::Compile, ActionModel::Run(compile_call(project))),
        ),
        UltraHonkBuildStage::Compile => unless(
            tool_failure(event, plain_telling(Blame::Compilation, "nargo"@, "noirup"@)),
            ask(
                state,
                UltraHonkBuildStage::WriteVk,
                ActionModel::Run(write_vk_call(acir_of(project), vk_of(project), state.oracle_hash)),
            ),
        ),
        UltraHonkBuildStage::WriteVk => unless(
            tool_failure(event, plain_telling(Blame::Compilation, "bb"@, "bbup"@)),
            ask(
                state,
                UltraHonkBuildStage::KeepOracle,
                ActionModel::WriteJson {
                    path: kept_settings_of(project),
                    value: kept_settings(state.oracle_hash),
                    pretty: false,
                },
            ),
        ),
        UltraHonkBuildStage::KeepOracle => unless(
            file_failure(event),
            lifted(state, pipeline_start(contract_dir_of(project), state.profile)),
        ),
        UltraHonkBuildStage::Pipeline => match state.pipeline {
            Some(pipeline) => lifted(state, pipeline_next(pipeline, event)),
            None => StepModel::Stopped(Failure::Other(out_of_turn())),
        },
    }
}

/// The settings that are kept for the proofs.
pub fn settings_to_keep(oracle_hash: &str) -> (value: JsonValue)
    ensures
        value@ == kept_settings(oracle_hash@),
{
    let mut entries: Vec<(String, JsonValue)> = Vec::new();
    entries.push(("oracle_hash".to_owned(), JsonValue::text(oracle_hash)));
    assert(entry_views(entries@) =~= kept_settings(oracle_hash@)->Object_0);
    JsonValue::object(entries)
}

impl UltraHonkBuild {
    /// The first step of the build of the project at `project_dir`, with
    /// the oracle hash of its settings.
    pub fn start(project_dir: &str, oracle_hash: Option<&str>, profile: &OptimizationProfile) -> (step:
        UltraHonkBuildStep)
        ensures
            step@ == ultrahonk_build_start(
                project_dir@,
                match oracle_hash {
                    Some(h) => Some(h@),
                    None => None,
                },
                profile@,
            ),
    {
        match oracle_hash {
            None => Step::Stopped(
                StellarZkError::CircuitCompilation("missing ultrahonk config".to_owned()),
            ),
            Some(hash) => Step::Perform {
                action: Action::CreateDirAll { path: join(project_dir, "target") },
                state: UltraHonkBuild {
                    stage: UltraHonkBuildStage::MakeTarget,
                    project_dir: project_dir.to_owned(),
                    oracle_hash: hash.to_owned(),
                    profile: profile.duplicate(),
                    pipeline: None,
                },
            },
        }
    }

    /// The step that asks for `action` and waits for it at `stage`.
    fn ask(self, stage: UltraHonkBuildStage, action: Action) -> (step: UltraHonkBuildStep)
        ensures
            step@ == ask(self@, stage, action@),
    {
        Step::Perform { action, state: UltraHonkBuild { stage, ..self } }
    }

    /// The step that carries the pipeline's step into the build.
    fn lift(self, step: PipelineStep) -> (r: UltraHonkBuildStep)
        ensures
            r@ == lifted(self@, step@),
    {
        match step {
            Step::Perform { action, state } => Step::Perform {
                action,
                state: UltraHonkBuild {
                    stage: UltraHonkBuildStage::Pipeline,
                    pipeline: Some(state),
                    ..self
                },
            },
            Step::Finished(output) => {
                let target = join(self.project_dir.as_str(), "target");
                Step::Finished(
                    BuildArtifacts {
                        circuit_artifact: join(target.as_str(), "circuits.json"),
                        verifier_wasm: output.path,
                        proving_key: None,
                        verification_key: join(target.as_str(), "vk"),
                    },
                )
            },
            Step::Stopped(error) => Step::Stopped(error),
        }
    }

    /// The build's next step after `event`, the event of the action that
    /// the last step asked for.
    pub fn advance(self, event: Event) -> (step: UltraHonkBuildStep)
        ensures
            step@ == ultrahonk_build_next(self@, event@),
    {
        let target = join(self.project_dir.as_str(), "target");
        match self.stage {
            UltraHonkBuildStage::MakeTarget => match check_done(event) {
                Some(error) => Step::Stopped(error),
                None => {
                    let call = compile(self.project_dir.as_str());
                    self.ask(UltraHonkBuildStage::Compile, Action::Run(call))
                },
            },
            UltraHonkBuildStage::Compile => match check_tool(
                event,
                &nargo_telling(Blame::Compilation),
            ) {
                Some(error) => Step::Stopped(error),
                None => {
                    let call = write_vk(
                        join(target.as_str(), "circuits.json").as_str(),
                        join(target.as_str(), "vk").as_str(),
                        self.oracle_hash.as_str(),
                    );
                    self.ask(UltraHonkBuildStage::WriteVk, Action::Run(call))
                },
            },
            UltraHonkBuildStage::WriteVk => match check_tool(event, &bb_telling(Blame::Compilation)) {
                Some(error) => Step::Stopped(error),
                None => {
                    let value = settings_to_keep(self.oracle_hash.as_str());
                    let path = join(target.as_str(), "ultrahonk_config.json");
                    self.ask(
                        UltraHonkBuildStage::KeepOracle,
                        Action::WriteJson { path, value, pretty: false },
                    )
                },
            },
            UltraHonkBuildStage::KeepOracle => match check_done(event) {
                Some(error) => Step::Stopped(error),
                None => {
                    let contract_dir = join(self.project_dir.as_str(), "contracts/verifier");
                    let first = build_and_optimize(contract_dir.as_str(), &self.profile);
                    self.lift(first)
                },
            },
            UltraHonkBuildStage::Pipeline => {
                let mut state = self;
                match state.pipeline.take() {
                    Some(pipeline) => {
                        let next = pipeline.advance(event);
                        state.lift(next)
                    },
                    None => Step::Stopped(unexpected()),
                }
            },
        }
    }
}

} // verus!
