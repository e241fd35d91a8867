//! The build of a RISC Zero project, step by step.
//!
//! The guest program is built and its binary is put with the other
//! artifacts, the host binary is built, the settings are kept for the
//! proofs to come, and the verifier contract goes through the pipeline. The
//! verification key is the same for every program.

use crate::backend::{BuildArtifacts, BuildArtifactsModel};
use crate::error::{Failure, StellarZkError};
use crate::json::{entry_views, JsonModel, JsonValue};
use crate::path::{join, joined};
use crate::pipeline::{
    build_and_optimize, pipeline_next, pipeline_start, stray, stray_step, PipelineModel,
    PipelineState, PipelineStep, PipelineStepModel,
};
use crate::process::{
    check_done, check_tool, file_failure, out_of_turn, tool_failure, unexpected, Action,
    ActionModel, Event, EventModel, Step, StepModel,
};
use crate::profile::{OptimizationProfile, ProfileModel};
use crate::risc0::guest::{
    build_guest, build_guest_telling, build_host, build_host_telling, guest_call, guest_telling,
    host_call, host_telling,
};
use crate::text::concat;
use vstd::prelude::*;
use vstd::string::StrSliceExecFns;
use vstd::string::StringSliceAdditionalSpecFns;

verus! {

/// What the build waits for.
#[derive(Debug, Clone, Copy, PartialEq, Eq, Structural)]
pub enum Risc0BuildStage {
    /// The target directory is made.
    MakeTarget,
    /// The guest program is built.
    BuildGuest,
    /// Whether the build left the guest binary.
    ProbeGuest,
    /// The guest binary is copied to the artifacts.
    CopyGuest,
    /// The warning that there is no guest binary.
    WarnNoGuest,
    /// A placeholder is written in place of the guest binary.
    WritePlaceholder,
    /// The host binary is built.
    BuildHost,
    /// The settings are kept.
    KeepSettings,
    /// The verifier contract goes through the pipeline.
    Pipeline,
    /// Whether the project has a verification key.
    ProbeKey,
    /// The verification key is written.
    WriteKey,
}

/// The state of a build between two actions.
#[derive(Debug)]
pub struct Risc0Build {
    pub stage: Risc0BuildStage,
    pub project_dir: String,
    pub guest_target: String,
    pub segment_limit_po2: u32,
    pub groth16_wrap: bool,
    pub profile: OptimizationProfile,
    /// The state of the pipeline, while it runs.
    pub pipeline: Option<PipelineState>,
    /// The contract binary, once the pipeline is through.
    pub wasm: String,
}

/// The mathematical value of a [`Risc0Build`].
pub struct Risc0BuildModel {
    pub stage: Risc0BuildStage,
    pub project_dir: Seq<char>,
    pub guest_target: Seq<char>,
    pub segment_limit_po2: u32,
    pub groth16_wrap: bool,
    pub profile: ProfileModel,
    pub pipeline: Option<PipelineModel>,
    pub wasm: Seq<char>,
}

impl View for Risc0Build {
    type V = Risc0BuildModel;

    open spec fn view(&self) -> Risc0BuildModel {
        Risc0BuildModel {
            stage: self.stage,
            project_dir: self.project_dir@,
            guest_target: self.guest_target@,
            segment_limit_po2: self.segment_limit_po2,
            groth16_wrap: self.groth16_wrap,
            profile: self.profile@,
            pipeline: crate::groth16::build_steps::pipeline_of(self.pipeline),
            wasm: self.wasm@,
        }
    }
}

/// The settings of a RISC Zero project as a build reads them.
pub struct Risc0Settings {
    pub guest_target: Seq<char>,
    pub segment_limit_po2: u32,
    pub groth16_wrap: bool,
}

/// A step of the build.
pub type Risc0BuildStep = Step<Risc0Build, BuildArtifacts>;

/// The mathematical value of a [`Risc0BuildStep`].
pub type Risc0BuildStepModel = StepModel<Risc0BuildModel, BuildArtifactsModel>;

/// The directory of all that a build makes.
pub open spec fn target_of(project: Seq<char>) -> Seq<char> {
    joined(project, "target"@)
}

/// The source of the guest program.
pub open spec fn guest_dir_of(project: Seq<char>) -> Seq<char> {
    joined(project, "programs/guest"@)
}

/// The source of the host binary.
pub open spec fn host_dir_of(project: Seq<char>) -> Seq<char> {
    joined(project, "programs/host"@)
}

/// Where the build of the guest program leaves its binary.
pub open spec fn built_guest_of(project: Seq<char>, guest_target: Seq<char>) -> Seq<char> {
    joined(joined(joined(guest_dir_of(project), "target"@), guest_target), "release/guest"@)
}

/// The guest binary among the artifacts.
pub open spec fn elf_of(project: Seq<char>) -> Seq<char> {
    joined(target_of(project), "guest.elf"@)
}

/// Where the settings are kept between the build and the proofs.
pub open spec fn kept_settings_of(project: Seq<char>) -> Seq<char> {
    joined(target_of(project), "risc0_config.json"@)
}

/// The verification key.
pub open spec fn vk_of(project: Seq<char>) -> Seq<char> {
    joined(target_of(project), "risc0.vk"@)
}

/// The source of the verifier contract.
pub open spec fn contract_dir_of(project: Seq<char>) -> Seq<char> {
    joined(project, "contracts/verifier"@)
}

/// The settings that are kept for the proofs.
pub open spec fn kept_settings(state: Risc0BuildModel) -> JsonModel {
    JsonModel::Object(
        seq![
            ("guest_target"@, JsonModel::Text(state.guest_target)),
            ("segment_limit_po2"@, JsonModel::Number(Some(state.segment_limit_po2 as u64))),
            ("groth16_wrap"@, JsonModel::Bool(state.groth16_wrap)),
        ],
    )
}

/// The warning that the build of the guest program left no binary.
pub open spec fn no_guest_warning(path: Seq<char>) -> Seq<char> {
    "guest ELF not found at "@ + path + "; writing placeholder"@
}

/// What stands in for a guest binary that is missing.
pub open spec fn elf_placeholder() -> Seq<u8> {
    "[elf placeholder]".spec_bytes()
}

/// What stands in for the verification key until a proof brings the real one.
pub open spec fn vk_placeholder() -> Seq<u8> {
    "[risc0 universal vk]".spec_bytes()
}

/// The step that asks for `action` and waits for it at `stage`.
pub open spec fn ask(state: Risc0BuildModel, stage: Risc0BuildStage, action: ActionModel) -> Risc0BuildStepModel {
    StepModel::Perform { action, state: Risc0BuildModel { stage, ..state } }
}

/// The step for a failure, and `otherwise` where there is none.
pub open spec fn unless(failure: Option<Failure>, otherwise: Risc0BuildStepModel) -> Risc0BuildStepModel {
    match failure {
        Some(f) => StepModel::Stopped(f),
        None => otherwise,
    }
}

/// The artifacts of a build. There is no proving key.
pub open spec fn risc0_artifacts(state: Risc0BuildModel) -> BuildArtifactsModel {
    BuildArtifactsModel {
        circuit_artifact: elf_of(state.project_dir),
        verifier_wasm: state.wasm,
        proving_key: None,
        verification_key: vk_of(state.project_dir),
    }
}

/// The step that carries the pipeline's step into the build. Once the
/// pipeline is through, the build looks for the verification key.
pub open spec fn lifted(state: Risc0BuildModel, step: PipelineStepModel) -> Risc0BuildStepModel {
    match step {
        StepModel::Perform { action, state: pipeline } => StepModel::Perform {
            action,
            state: Risc0BuildModel {
                stage: Risc0BuildStage::Pipeline,
                pipeline: Some(pipeline),
                ..state
            },
        },
        StepModel::Finished(output) => StepModel::Perform {
            action: ActionModel::Exists { path: vk_of(state.project_dir) },
            state: Risc0BuildModel {
                stage: Risc0BuildStage::ProbeKey,
                pipeline: None,
                wasm: output.path,
                ..state
            },
        },
        StepModel::Stopped(failure) => StepModel::Stopped(failure),
    }
}

/// The first step of a build. A project without settings for RISC Zero is
/// turned down before anything is touched.
pub open spec fn risc0_build_start(
    project: Seq<char>,
    settings: Option<Risc0Settings>,
    profile: ProfileModel,
) -> Risc0BuildStepModel {
    match settings {
        None => StepModel::Stopped(Failure::CircuitCompilation("missing risc0 config"@)),
        Some(s) => StepModel::Perform {
            action: ActionModel::CreateDirAll { path: target_of(project) },
            state: Risc0BuildModel {
                stage: Risc0BuildStage::MakeTarget,
                project_dir: project,
                guest_target: s.guest_target,
                segment_limit_po2: s.segment_limit_po2,
                groth16_wrap: s.groth16_wrap,
                profile,
                pipeline: None,
                wasm: Seq::empty(),
            },
        },
    }
}

/// The build's next step after `event`.
pub open spec fn risc0_build_next(state: Risc0BuildModel, event: EventModel) -> Risc0BuildStepModel {
    let project = state.project_dir;
    match state.stage {
        Risc0BuildStage::MakeTarget => unless(
            file_failure(event),
            ask(
                state,
                Risc0BuildStage::BuildGuest,
                ActionModel::Run(guest_call(guest_dir_of(project), state.guest_target)),
            ),
        ),
        Risc0BuildStage::BuildGuest => unless(
            tool_failure(event, guest_telling()),
            ask(
                state,
                Risc0BuildStage::ProbeGuest,
                ActionModel::Exists { path: built_guest_of(project, state.guest_target) },
            ),
        ),
        Risc0BuildStage::ProbeGuest => match event {
            EventModel::Exists(found) => if found {
                ask(
                    state,
                    Risc0BuildStage::CopyGuest,
                    ActionModel::Copy {
                        from: built_guest_of(project, state.guest_target),
                        to: elf_of(project),
                    },
                )
            } else {
                ask(
                    state,
                    Risc0BuildStage::WarnNoGuest,
                    ActionModel::Warn {
                        message: no_guest_warning(built_guest_of(project, state.guest_target)),
                    },
                )
            },
            _ => stray(event),
        },
        Risc0BuildStage::CopyGuest => unless(
            file_failure(event),
            ask(state, Risc0BuildStage::BuildHost, ActionModel::Run(host_call(host_dir_of(project)))),
        ),
        Risc0BuildStage::WarnNoGuest => unless(
            file_failure(event),
            ask(
                state,
                Risc0BuildStage::WritePlaceholder,
                ActionModel::Write { path: elf_of(project), content: elf_placeholder() },
            ),
        ),
        Risc0BuildStage::WritePlaceholder => unless(
            file_failure(event),
            ask(state, Risc0BuildStage::BuildHost, ActionModel::Run(host_call(host_dir_of(project)))),
        ),
        Risc0BuildStage::BuildHost => unless(
            tool_failure(event, host_telling()),
            ask(
                state,
                Risc0BuildStage::KeepSettings,
                ActionModel::WriteJson {
                    path: kept_settings_of(project),
                    value: kept_settings(state),
                    pretty: false,
                },
            ),
        ),
        Risc0BuildStage::KeepSettings => unless(
            file_failure(event),
            lifted(state, pipeline_start(contract_dir_of(project), state.profile)),
        ),
        Risc0BuildStage::Pipeline => match state.pipeline {
            Some(pipeline) => lifted(state, pipeline_next(pipeline, event)),
            None => StepModel::Stopped(Failure::Other(out_of_turn())),
        },
        Risc0BuildStage::ProbeKey => match event {
            EventModel::Exists(found) => if found {
                StepModel::Finished(risc0_artifacts(state))
            } else {
                ask(
                    state,
                    Risc0BuildStage::WriteKey,
                    ActionModel::Write { path: vk_of(project), content: vk_placeholder() },
                )
            },
            _ => stray(event),
        },
        Risc0BuildStage::WriteKey => unless(
            file_failure(event),
            StepModel::Finished(risc0_artifacts(state)),
        ),
    }
}

/// A verification key that is there is left as it is: the build writes a
/// key only where it found none.
pub proof fn lemma_key_is_never_overwritten(state: Risc0BuildModel, event: EventModel)
    requires
        state.stage == Risc0BuildStage::ProbeKey,
        event == EventModel::Exists(true),
    ensures
        risc0_build_next(state, event) == StepModel::<
            Risc0BuildModel,
            BuildArtifactsModel,
        >::Finished(risc0_artifacts(state)),
{
}

impl Risc0Build {
    /// The first step of the build of the project at `project_dir`, with
    /// the settings of the project.
    pub fn start(
        project_dir: &str,
        settings: Option<&crate::config::Risc0Config>,
        profile: &OptimizationProfile,
    ) -> (step: Risc0BuildStep)
        ensures
            step@ == risc0_build_start(
                project_dir@,
                match settings {
                    Some(s) => Some(
                        Risc0Settings {
                            guest_target: s.guest_target@,
                            segment_limit_po2: s.segment_limit_po2,
                            groth16_wrap: s.groth16_wrap,
                        },
                    ),
                    None => None,
                },
                profile@,
            ),
    {
        match settings {
            None => Step::Stopped(
                StellarZkError::CircuitCompilation("missing risc0 config".to_owned()),
            ),
            Some(s) => Step::Perform {
                action: Action::CreateDirAll { path: join(project_dir, "target") },
                state: Risc0Build {
                    stage: Risc0BuildStage::MakeTarget,
                    project_dir: project_dir.to_owned(),
                    guest_target: s.guest_target.clone(),
                    segment_limit_po2: s.segment_limit_po2,
                    groth16_wrap: s.groth16_wrap,
                    profile: profile.duplicate(),
                    pipeline: None,
                    wasm: String::new(),
                },
            },
        }
    }

    /// The step that asks for `action` and waits for it at `stage`.
    fn ask(self, stage: Risc0BuildStage, action: Action) -> (step: Risc0BuildStep)
        ensures
            step@ == ask(self@, stage, action@),
    {
        Step::Perform { action, state: Risc0Build { stage, ..self } }
    }

    /// The artifacts of the build.
    fn artifacts(self) -> (artifacts: BuildArtifacts)
        ensures
            artifacts@ == risc0_artifacts(self@),
    {
        let target = join(self.project_dir.as_str(), "target");
        BuildArtifacts {
            circuit_artifact: join(target.as_str(), "guest.elf"),
            verifier_wasm: self.wasm,
            proving_key: None,
            verification_key: join(target.as_str(), "risc0.vk"),
        }
    }

    /// The settings that are kept for the proofs.
    fn settings_to_keep(&self) -> (value: JsonValue)
        ensures
            value@ == kept_settings(self@),
    {
        let mut entries: Vec<(String, JsonValue)> = Vec::new();
        entries.push(("guest_target".to_owned(), JsonValue::text(self.guest_target.as_str())));
        entries.push(
            ("segment_limit_po2".to_owned(), JsonValue::unsigned(self.segment_limit_po2 as u64)),
        );
        entries.push(("groth16_wrap".to_owned(), JsonValue::Bool(self.groth16_wrap)));
        assert(entry_views(entries@) =~= kept_settings(self@)->Object_0);
        JsonValue::object(entries)
    }

    /// The step that carries the pipeline's step into the build.
    fn lift(self, step: PipelineStep) -> (r: Risc0BuildStep)
        ensures
            r@ == lifted(self@, step@),
    {
        match step {
            Step::Perform { action, state } => Step::Perform {
                action,
                state: Risc0Build { stage: Risc0BuildStage::Pipeline, pipeline: Some(state), ..self },
            },
            Step::Finished(output) => {
                let target = join(self.project_dir.as_str(), "target");
                let path = join(target.as_str(), "risc0.vk");
                Step::Perform {
                    action: Action::Exists { path },
                    state: Risc0Build {
                        stage: Risc0BuildStage::ProbeKey,
                        pipeline: None,
                        wasm: output.path,
                        ..self
                    },
                }
            },
            Step::Stopped(error) => Step::Stopped(error),
        }
    }

    /// The build's next step after `event`, the event of the action that
    /// the last step asked for.
    pub fn advance(self, event: Event) -> (step: Risc0BuildStep)
        ensures
            step@ == risc0_build_next(self@, event@),
    {
        let project = self.project_dir.as_str();
        let target = join(project, "target");
        let guest_dir = join(project, "programs/guest");
        let host_dir = join(project, "programs/host");
        let built_guest = join(
            join(join(guest_dir.as_str(), "target").as_str(), self.guest_target.as_str()).as_str(),
            "release/guest",
        );
        let elf = join(target.as_str(), "guest.elf");
        match self.stage {
            Risc0BuildStage::MakeTarget => match check_done(event) {
                Some(error) => Step::Stopped(error),
                None => {
                    let call = build_guest(guest_dir.as_str(), self.guest_target.as_str());
                    self.ask(Risc0BuildStage::BuildGuest, Action::Run(call))
                },
            },
            Risc0BuildStage::BuildGuest => match check_tool(event, &build_guest_telling()) {
                Some(error) => Step::Stopped(error),
                None => self.ask(Risc0BuildStage::ProbeGuest, Action::Exists { path: built_guest }),
            },
            Risc0BuildStage::ProbeGuest => match event {
                Event::Exists(found) => if found {
                    self.ask(Risc0BuildStage::CopyGuest, Action::Copy { from: built_guest, to: elf })
                } else {
                    let mut message = concat("guest ELF not found at ", built_guest.as_str());
                    message.append("; writing placeholder");
                    self.ask(Risc0BuildStage::WarnNoGuest, Action::Warn { message })
                },
                other => stray_step(other),
            },
            Risc0BuildStage::CopyGuest => match check_done(event) {
                Some(error) => Step::Stopped(error),
                None => {
                    let call = build_host(host_dir.as_str());
                    self.ask(Risc0BuildStage::BuildHost, Action::Run(call))
                },
            },
            Risc0BuildStage::WarnNoGuest => match check_done(event) {
                Some(error) => Step::Stopped(error),
                None => {
                    let content = "[elf placeholder]".as_bytes_vec();
                    self.ask(Risc0BuildStage::WritePlaceholder, Action::Write { path: elf, content })
                },
            },
            Risc0BuildStage::WritePlaceholder => match check_done(event) {
                Some(error) => Step::Stopped(error),
                None => {
                    let call = build_host(host_dir.as_str());
                    self.ask(Risc0BuildStage::BuildHost, Action::Run(call))
                },
            },
            Risc0BuildStage::BuildHost => match check_tool(event, &build_host_telling()) {
                Some(error) => Step::Stopped(error),
                None => {
                    let value = self.settings_to_keep();
                    let path = join(target.as_str(), "risc0_config.json");
                    self.ask(
                        Risc0BuildStage::KeepSettings,
                        Action::WriteJson { path, value, pretty: false },
                    )
                },
            },
            Risc0BuildStage::KeepSettings => match check_done(event) {
                Some(error) => Step::Stopped(error),
                None => {
                    let contract_dir = join(project, "contracts/verifier");
                    let first = build_and_optimize(contract_dir.as_str(), &self.profile);
                    self.lift(first)
                },
            },
            Risc0BuildStage::Pipeline => {
                let mut state = self;
                match state.pipeline.take() {
                    Some(pipeline) => {
                        let next = pipeline.advance(event);
                        state.lift(next)
                    },
                    None => Step::Stopped(unexpected()),
                }
            },
            Risc0BuildStage::ProbeKey => match event {
                Event::Exists(found) => if found {
                    Step::Finished(self.artifacts())
                } else {
                    let content = "[risc0 universal vk]".as_bytes_vec();
                    let path = join(target.as_str(), "risc0.vk");
                    self.ask(Risc0BuildStage::WriteKey, Action::Write { path, content })
                },
                other => stray_step(other),
            },
            Risc0BuildStage::WriteKey => match check_done(event) {
                Some(error) => Step::Stopped(error),
                None => Step::Finished(self.artifacts()),
            },
        }
    }
}

} // verus!
