//! From the source of a verifier contract to a binary that the network
//! accepts.
//!
//! Four stages, in this order. The contract is compiled, and exactly one
//! binary must come of it. The binary is optimized where the profile asks for
//! it, and stripped where the profile asks for it; a tool that is not there
//! is passed over with a warning. At last the size is held against the limit
//! of the network, where the profile enforces it. Each stage that runs leaves
//! its name and the size it ended with in a trace.

use crate::error::{Failure, StellarZkError};
use crate::path::{extension_of, has_extension, join, joined, replaced_extension, stem_end,
    with_extension};
use crate::process::{
    io_failure, out_of_turn, tool_call, tool_call_in, unexpected, Action, ActionModel, Event,
    EventModel, Step, StepModel, ToolCallModel,
};
use crate::profile::{OptimizationProfile, ProfileModel, WasmOptLevel};
use crate::text::{concat, no_texts, push_text, texts};
use vstd::prelude::*;

verus! {

/// What the pipeline hands back.
#[derive(Debug)]
pub struct WasmOutput {
    /// Path of the final binary.
    pub path: String,
    /// Its size in bytes.
    pub size_bytes: u64,
    /// Whether the profile asked for the optimizer.
    pub optimized: bool,
    /// Name and resulting size of each stage that ran, in order.
    pub stage_sizes: Vec<(String, u64)>,
}

/// The mathematical value of a [`WasmOutput`].
pub struct WasmOutputModel {
    pub path: Seq<char>,
    pub size_bytes: u64,
    pub optimized: bool,
    pub stage_sizes: Seq<(Seq<char>, u64)>,
}

/// The trace that a list of stages holds.
pub open spec fn trace_of(stages: Seq<(String, u64)>) -> Seq<(Seq<char>, u64)> {
    Seq::new(stages.len(), |i: int| (stages[i].0@, stages[i].1))
}

impl View for WasmOutput {
    type V = WasmOutputModel;

    open spec fn view(&self) -> WasmOutputModel {
        WasmOutputModel {
            path: self.path@,
            size_bytes: self.size_bytes,
            optimized: self.optimized,
            stage_sizes: trace_of(self.stage_sizes@),
        }
    }
}

/// What the pipeline waits for.
#[derive(Debug, Clone, Copy, PartialEq, Eq, Structural)]
pub enum PipelineStage {
    /// The compiler runs.
    Compile,
    /// Whether the output directory exists.
    Probe,
    /// The entries of the output directory.
    List,
    /// The size of the compiled binary.
    MeasureCompiled,
    /// The optimizer runs.
    Optimize,
    /// The warning that there is no optimizer.
    OptimizeSkipped,
    /// The size after the optimizer.
    MeasureOptimized,
    /// The stripper runs.
    Strip,
    /// The warning that there is no stripper.
    StripSkipped,
    /// The size after the stripper.
    MeasureStripped,
}

/// The state of a run of the pipeline between two actions.
#[derive(Debug)]
pub struct PipelineState {
    pub stage: PipelineStage,
    /// The directory where the compiler leaves the binary.
    pub target_dir: String,
    pub wasm_opt_level: WasmOptLevel,
    pub strip_symbols: bool,
    pub enforce_size_limit: bool,
    /// The binary as it stands; empty until it is found.
    pub current: String,
    /// Where the tool that runs is to leave its output.
    pub pending: String,
    /// The trace so far.
    pub stages: Vec<(String, u64)>,
}

/// The mathematical value of a [`PipelineState`].
pub struct PipelineModel {
    pub stage: PipelineStage,
    pub target_dir: Seq<char>,
    pub wasm_opt_level: WasmOptLevel,
    pub strip_symbols: bool,
    pub enforce_size_limit: bool,
    pub current: Seq<char>,
    pub pending: Seq<char>,
    pub stages: Seq<(Seq<char>, u64)>,
}

impl View for PipelineState {
    type V = PipelineModel;

    open spec fn view(&self) -> PipelineModel {
        PipelineModel {
            stage: self.stage,
            target_dir: self.target_dir@,
            wasm_opt_level: self.wasm_opt_level,
            strip_symbols: self.strip_symbols,
            enforce_size_limit: self.enforce_size_limit,
            current: self.current@,
            pending: self.pending@,
            stages: trace_of(self.stages@),
        }
    }
}

/// A step of the pipeline.
pub type PipelineStep = Step<PipelineState, WasmOutput>;

/// The mathematical value of a [`PipelineStep`].
pub type PipelineStepModel = StepModel<PipelineModel, WasmOutputModel>;

/// Largest binary that the network accepts, in bytes.
pub open spec fn size_limit() -> u64 {
    65_536
}

/// The arguments of the compiler for a cargo profile: `dev` is the default,
/// `release` has a flag of its own, any other is named.
pub open spec fn cargo_build_args(cargo_profile: Seq<char>) -> Seq<Seq<char>> {
    let base = seq!["build"@, "--target"@, "wasm32-unknown-unknown"@];
    if cargo_profile == "dev"@ {
        base
    } else if cargo_profile == "release"@ {
        base.push("--release"@)
    } else {
        base.push("--profile"@).push(cargo_profile)
    }
}

/// The directory where the compiler leaves the binary.
pub open spec fn target_dir_of(contract_dir: Seq<char>, cargo_profile: Seq<char>) -> Seq<char> {
    let subdir = if cargo_profile == "dev"@ {
        "debug"@
    } else {
        "release"@
    };
    joined(joined(joined(contract_dir, "target"@), "wasm32-unknown-unknown"@), subdir)
}

/// A path that names a contract binary.
pub open spec fn is_wasm(path: Seq<char>) -> bool {
    stem_end(path) < path.len() && extension_of(path) == "wasm"@
}

/// The contract binaries among the first `upto` entries, in order.
pub open spec fn candidates(entries: Seq<Seq<char>>, upto: nat) -> Seq<Seq<char>>
    decreases upto,
{
    if upto == 0 {
        Seq::empty()
    } else if is_wasm(entries[upto - 1]) {
        candidates(entries, (upto - 1) as nat).push(entries[upto - 1])
    } else {
        candidates(entries, (upto - 1) as nat)
    }
}

/// The flag of the optimizer for a level.
pub open spec fn opt_flag(level: WasmOptLevel) -> Seq<char> {
    match level {
        WasmOptLevel::Oz => "-Oz"@,
        _ => "-Os"@,
    }
}

/// Where the optimizer leaves its output.
pub open spec fn optimized_path(input: Seq<char>) -> Seq<char> {
    replaced_extension(input, "opt.wasm"@)
}

/// Where the stripper leaves its output.
pub open spec fn stripped_path(input: Seq<char>) -> Seq<char> {
    replaced_extension(input, "stripped.wasm"@)
}

/// The run of the compiler.
pub open spec fn compile_call(contract_dir: Seq<char>, cargo_profile: Seq<char>) -> ToolCallModel {
    ToolCallModel {
        program: "cargo"@,
        args: cargo_build_args(cargo_profile),
        cwd: Some(contract_dir),
        env: Seq::empty(),
    }
}

/// The run of the optimizer.
pub open spec fn optimize_call(input: Seq<char>, level: WasmOptLevel) -> ToolCallModel {
    ToolCallModel {
        program: "wasm-opt"@,
        args: seq![opt_flag(level), input, "-o"@, optimized_path(input)],
        cwd: None,
        env: Seq::empty(),
    }
}

/// The run of the stripper.
pub open spec fn strip_call(input: Seq<char>) -> ToolCallModel {
    ToolCallModel {
        program: "wasm-strip"@,
        args: seq![input, "-o"@, stripped_path(input)],
        cwd: None,
        env: Seq::empty(),
    }
}

/// The first step of the pipeline: the compiler is run in the directory of
/// the contract.
pub open spec fn pipeline_start(contract_dir: Seq<char>, profile: ProfileModel) -> PipelineStepModel {
    StepModel::Perform {
        action: ActionModel::Run(compile_call(contract_dir, profile.cargo_profile)),
        state: PipelineModel {
            stage: PipelineStage::Compile,
            target_dir: target_dir_of(contract_dir, profile.cargo_profile),
            wasm_opt_level: profile.wasm_opt_level,
            strip_symbols: profile.strip_symbols,
            enforce_size_limit: profile.enforce_size_limit,
            current: Seq::empty(),
            pending: Seq::empty(),
            stages: Seq::empty(),
        },
    }
}

/// The last stage: the size of the final binary held against the limit.
pub open spec fn size_verdict(state: PipelineModel, size: u64) -> PipelineStepModel {
    if state.enforce_size_limit && size > size_limit() {
        StepModel::Stopped(
            Failure::WasmTooLarge { size, max: size_limit(), path: state.current },
        )
    } else {
        StepModel::Finished(
            WasmOutputModel {
                path: state.current,
                size_bytes: size,
                optimized: state.wasm_opt_level != WasmOptLevel::Off,
                stage_sizes: state.stages,
            },
        )
    }
}

/// What follows the optimizer: the stripper where the profile asks for it,
/// else the verdict.
pub open spec fn after_optimize(state: PipelineModel, size: u64) -> PipelineStepModel {
    if state.strip_symbols {
        StepModel::Perform {
            action: ActionModel::Run(strip_call(state.current)),
            state: PipelineModel {
                stage: PipelineStage::Strip,
                pending: stripped_path(state.current),
                ..state
            },
        }
    } else {
        size_verdict(state, size)
    }
}

/// What follows the compiler: the optimizer where the profile asks for it,
/// else what follows the optimizer.
pub open spec fn after_compile(state: PipelineModel, size: u64) -> PipelineStepModel {
    if state.wasm_opt_level != WasmOptLevel::Off {
        StepModel::Perform {
            action: ActionModel::Run(optimize_call(state.current, state.wasm_opt_level)),
            state: PipelineModel {
                stage: PipelineStage::Optimize,
                pending: optimized_path(state.current),
                ..state
            },
        }
    } else {
        after_optimize(state, size)
    }
}

/// The step that asks for the size of the binary as it stands.
pub open spec fn measure(state: PipelineModel, stage: PipelineStage) -> PipelineStepModel {
    StepModel::Perform {
        action: ActionModel::Size { path: state.current },
        state: PipelineModel { stage, ..state },
    }
}

/// The state with one more stage in its trace.
pub open spec fn recorded(state: PipelineModel, name: Seq<char>, size: u64) -> PipelineModel {
    PipelineModel { stages: state.stages.push((name, size)), ..state }
}

/// The step for an event that the stage at hand has no use for: a failure
/// of the file system stops the work as such, anything else is out of turn.
pub open spec fn stray<S, T>(event: EventModel) -> StepModel<S, T> {
    match io_failure(event) {
        Some(failure) => StepModel::Stopped(failure),
        None => StepModel::Stopped(Failure::Other(out_of_turn())),
    }
}

/// The text that tells that the compiler left no binary.
pub open spec fn no_binary(dir: Seq<char>) -> Seq<char> {
    "no .wasm file found in "@ + dir
}

/// The text that tells that the compiler left more than one binary.
pub open spec fn many_binaries(dir: Seq<char>) -> Seq<char> {
    "more than one .wasm file found in "@ + dir
}

/// The pipeline's next step after `event`.
pub open spec fn pipeline_next(state: PipelineModel, event: EventModel) -> PipelineStepModel {
    match state.stage {
        PipelineStage::Compile => match event {
            EventModel::Exited { success, stdout, stderr } => if success {
                StepModel::Perform {
                    action: ActionModel::Exists { path: state.target_dir },
                    state: PipelineModel { stage: PipelineStage::Probe, ..state },
                }
            } else {
                StepModel::Stopped(Failure::ContractBuild(stderr))
            },
            _ => stray(event),
        },
        PipelineStage::Probe => match event {
            EventModel::Exists(found) => if found {
                StepModel::Perform {
                    action: ActionModel::ListDir { path: state.target_dir },
                    state: PipelineModel { stage: PipelineStage::List, ..state },
                }
            } else {
                StepModel::Stopped(Failure::ContractBuild(no_binary(state.target_dir)))
            },
            _ => stray(event),
        },
        PipelineStage::List => match event {
            EventModel::Entries(entries) => {
                let found = candidates(entries, entries.len());
                if found.len() == 0 {
                    StepModel::Stopped(Failure::ContractBuild(no_binary(state.target_dir)))
                } else if found.len() > 1 {
                    StepModel::Stopped(Failure::ContractBuild(many_binaries(state.target_dir)))
                } else {
                    measure(
                        PipelineModel { current: found[0], ..state },
                        PipelineStage::MeasureCompiled,
                    )
                }
            },
            _ => stray(event),
        },
        PipelineStage::MeasureCompiled => match event {
            EventModel::Size(size) => after_compile(recorded(state, "cargo build"@, size), size),
            _ => stray(event),
        },
        PipelineStage::Optimize => match event {
            EventModel::Exited { success, stdout, stderr } => if success {
                measure(
                    PipelineModel { current: state.pending, ..state },
                    PipelineStage::MeasureOptimized,
                )
            } else {
                StepModel::Stopped(Failure::WasmOptFailed(stderr))
            },
            EventModel::NotFound { .. } | EventModel::Failed { .. } => StepModel::Perform {
                action: ActionModel::Warn {
                    message: "wasm-opt not found, skipping WASM optimization"@,
                },
                state: PipelineModel { stage: PipelineStage::OptimizeSkipped, ..state },
            },
            _ => stray(event),
        },
        PipelineStage::OptimizeSkipped => match event {
            EventModel::Done => measure(state, PipelineStage::MeasureOptimized),
            _ => stray(event),
        },
        PipelineStage::MeasureOptimized => match event {
            EventModel::Size(size) => after_optimize(recorded(state, "wasm-opt"@, size), size),
            _ => stray(event),
        },
        PipelineStage::Strip => match event {
            EventModel::Exited { success, stdout, stderr } => if success {
                measure(
                    PipelineModel { current: state.pending, ..state },
                    PipelineStage::MeasureStripped,
                )
            } else {
                StepModel::Stopped(Failure::WasmOptFailed(stderr))
            },
            EventModel::NotFound { .. } | EventModel::Failed { .. } => StepModel::Perform {
                action: ActionModel::Warn {
                    message: "wasm-strip not found, skipping symbol stripping"@,
                },
                state: PipelineModel { stage: PipelineStage::StripSkipped, ..state },
            },
            _ => stray(event),
        },
        PipelineStage::StripSkipped => match event {
            EventModel::Done => measure(state, PipelineStage::MeasureStripped),
            _ => stray(event),
        },
        PipelineStage::MeasureStripped => match event {
            EventModel::Size(size) => size_verdict(recorded(state, "strip"@, size), size),
            _ => stray(event),
        },
    }
}

/// The trace only grows: whatever the event, the next state and the output
/// keep every stage recorded so far, in place.
pub proof fn lemma_trace_only_grows(state: PipelineModel, event: EventModel)
    ensures
        match pipeline_next(state, event) {
            StepModel::Perform { action, state: next } => state.stages.is_prefix_of(next.stages),
            StepModel::Finished(output) => state.stages.is_prefix_of(output.stage_sizes),
            StepModel::Stopped(_) => true,
        },
{
}

/// A binary over the limit stops a build that enforces the limit, with the
/// size that was measured; a build that does not enforce it hands the same
/// binary out.
pub proof fn lemma_size_limit(state: PipelineModel, size: u64)
    requires
        size > size_limit(),
    ensures
        state.enforce_size_limit ==> size_verdict(state, size) == StepModel::<
            PipelineModel,
            WasmOutputModel,
        >::Stopped(Failure::WasmTooLarge { size, max: size_limit(), path: state.current }),
        !state.enforce_size_limit ==> (size_verdict(state, size) matches StepModel::Finished(
            output,
        ) && output.size_bytes == size && output.path == state.current),
{
}

/// The step for an event that the stage at hand has no use for.
pub fn stray_step<S: View, T: View>(event: Event) -> (step: Step<S, T>)
    ensures
        step@ == stray::<S::V, T::V>(event@),
{
    match event {
        Event::NotFound { message } => Step::Stopped(StellarZkError::Io(message)),
        Event::Failed { message } => Step::Stopped(StellarZkError::Io(message)),
        _ => Step::Stopped(unexpected()),
    }
}

/// The arguments of the compiler for a cargo profile.
pub fn cargo_args(cargo_profile: &str) -> (args: Vec<String>)
    ensures
        texts(args@) == cargo_build_args(cargo_profile@),
{
    let mut args = no_texts();
    push_text(&mut args, "build");
    push_text(&mut args, "--target");
    push_text(&mut args, "wasm32-unknown-unknown");
    if cargo_profile.eq("dev") {
    } else if cargo_profile.eq("release") {
        push_text(&mut args, "--release");
    } else {
        push_text(&mut args, "--profile");
        push_text(&mut args, cargo_profile);
    }
    assert(texts(args@) =~= cargo_build_args(cargo_profile@));
    args
}

/// The directory where the compiler leaves the binary.
pub fn target_dir(contract_dir: &str, cargo_profile: &str) -> (dir: String)
    ensures
        dir@ == target_dir_of(contract_dir@, cargo_profile@),
{
    let subdir = if cargo_profile.eq("dev") {
        "debug"
    } else {
        "release"
    };
    let target = join(contract_dir, "target");
    let triple = join(target.as_str(), "wasm32-unknown-unknown");
    join(triple.as_str(), subdir)
}

/// Finds the contract binary among the entries of a directory: the one
/// entry with the extension `wasm`. `Ok(None)` where there is none, and
/// `Err` where there are several.
pub fn find_wasm_file(entries: &Vec<String>) -> (r: Result<Option<String>, ()>)
    ensures
        match r {
            Ok(Some(path)) => candidates(texts(entries@), entries@.len()) == seq![path@],
            Ok(None) => candidates(texts(entries@), entries@.len()).len() == 0,
            Err(_) => candidates(texts(entries@), entries@.len()).len() > 1,
        },
{
    let ghost all = texts(entries@);
    let mut found: Option<usize> = None;
    let mut i: usize = 0;
    while i < entries.len()
        invariant
            i <= entries@.len(),
            all == texts(entries@),
            match found {
                Some(k) => k < i && candidates(all, i as nat) == seq![all[k as int]],
                None => candidates(all, i as nat).len() == 0,
            },
        decreases entries@.len() - i,
    {
        if has_extension(entries[i].as_str(), "wasm") {
            if found.is_some() {
                proof {
                    lemma_candidates_grow(all, (i + 1) as nat, entries@.len());
                }
                return Err(());
            }
            found = Some(i);
            assert(candidates(all, (i + 1) as nat) =~= seq![all[i as int]]);
        }
        i += 1;
    }
    match found {
        Some(k) => Ok(Some(entries[k].clone())),
        None => Ok(None),
    }
}

/// Among more entries there are no fewer binaries.
pub proof fn lemma_candidates_grow(entries: Seq<Seq<char>>, k: nat, n: nat)
    requires
        k <= n,
    ensures
        candidates(entries, k).len() <= candidates(entries, n).len(),
    decreases n,
{
    if k < n {
        lemma_candidates_grow(entries, k, (n - 1) as nat);
    }
}

/// The build and optimization pipeline for the contract in `contract_dir`:
/// its first step.
pub fn build_and_optimize(contract_dir: &str, profile: &OptimizationProfile) -> (step: PipelineStep)
    ensures
        step@ == pipeline_start(contract_dir@, profile@),
{
    let args = cargo_args(profile.cargo_profile.as_str());
    let call = tool_call_in("cargo", args, contract_dir);
    let state = PipelineState {
        stage: PipelineStage::Compile,
        target_dir: target_dir(contract_dir, profile.cargo_profile.as_str()),
        wasm_opt_level: profile.wasm_opt_level,
        strip_symbols: profile.strip_symbols,
        enforce_size_limit: profile.enforce_size_limit,
        current: String::new(),
        pending: String::new(),
        stages: Vec::new(),
    };
    assert(state@.stages =~= Seq::empty());
    Step::Perform { action: Action::Run(call), state }
}

impl PipelineState {
    /// The state at another stage.
    fn at(self, stage: PipelineStage) -> (next: PipelineState)
        ensures
            next@ == (PipelineModel { stage, ..self@ }),
    {
        PipelineState { stage, ..self }
    }

    /// The state with one more stage in its trace.
    fn record(self, name: &str, size: u64) -> (next: PipelineState)
        ensures
            next@ == recorded(self@, name@, size),
    {
        let mut state = self;
        let ghost before = trace_of(state.stages@);
        state.stages.push((name.to_owned(), size));
        assert(trace_of(state.stages@) =~= before.push((name@, size)));
        state
    }

    /// The step that asks for the size of the binary as it stands.
    fn measure(self, stage: PipelineStage) -> (step: PipelineStep)
        ensures
            step@ == measure(self@, stage),
    {
        let path = self.current.clone();
        Step::Perform { action: Action::Size { path }, state: self.at(stage) }
    }

    /// The last stage: the size of the final binary held against the limit.
    pub fn check_size(self, size: u64) -> (step: PipelineStep)
        ensures
            step@ == size_verdict(self@, size),
    {
        if self.enforce_size_limit && size > OptimizationProfile::MAX_WASM_SIZE {
            Step::Stopped(
                StellarZkError::WasmTooLarge {
                    size,
                    max: OptimizationProfile::MAX_WASM_SIZE,
                    path: self.current,
                },
            )
        } else {
            Step::Finished(
                WasmOutput {
                    path: self.current,
                    size_bytes: size,
                    optimized: self.wasm_opt_level != WasmOptLevel::Off,
                    stage_sizes: self.stages,
                },
            )
        }
    }

    /// What follows the optimizer.
    fn after_optimize(self, size: u64) -> (step: PipelineStep)
        ensures
            step@ == after_optimize(self@, size),
    {
        if self.strip_symbols {
            let output = with_extension(self.current.as_str(), "stripped.wasm");
            let mut args = no_texts();
            push_text(&mut args, self.current.as_str());
            push_text(&mut args, "-o");
            push_text(&mut args, output.as_str());
            assert(texts(args@) =~= strip_call(self@.current).args);
            let call = tool_call("wasm-strip", args);
            let mut state = self.at(PipelineStage::Strip);
            state.pending = output;
            Step::Perform { action: Action::Run(call), state }
        } else {
            self.check_size(size)
        }
    }

    /// What follows the compiler.
    fn after_compile(self, size: u64) -> (step: PipelineStep)
        ensures
            step@ == after_compile(self@, size),
    {
        match self.wasm_opt_level {
            WasmOptLevel::Off => self.after_optimize(size),
            level => {
                let flag = match level {
                    WasmOptLevel::Oz => "-Oz",
                    _ => "-Os",
                };
                let output = with_extension(self.current.as_str(), "opt.wasm");
                let mut args = no_texts();
                push_text(&mut args, flag);
                push_text(&mut args, self.current.as_str());
                push_text(&mut args, "-o");
                push_text(&mut args, output.as_str());
                assert(texts(args@) =~= optimize_call(self@.current, level).args);
                let call = tool_call("wasm-opt", args);
                let mut state = self.at(PipelineStage::Optimize);
                state.pending = output;
                Step::Perform { action: Action::Run(call), state }
            },
        }
    }

    /// The pipeline's next step after `event`, the event of the action that
    /// the last step asked for.
    pub fn advance(self, event: Event) -> (step: PipelineStep)
        ensures
            step@ == pipeline_next(self@, event@),
    {
        match self.stage {
            PipelineStage::Compile => match event {
                Event::Exited { success, stdout, stderr } => if success {
                    let path = self.target_dir.clone();
                    Step::Perform {
                        action: Action::Exists { path },
                        state: self.at(PipelineStage::Probe),
                    }
                } else {
                    Step::Stopped(StellarZkError::ContractBuild(stderr))
                },
                other => stray_step(other),
            },
            PipelineStage::Probe => match event {
                Event::Exists(found) => if found {
                    let path = self.target_dir.clone();
                    Step::Perform {
                        action: Action::ListDir { path },
                        state: self.at(PipelineStage::List),
                    }
                } else {
                    Step::Stopped(
                        StellarZkError::ContractBuild(
                            concat("no .wasm file found in ", self.target_dir.as_str()),
                        ),
                    )
                },
                other => stray_step(other),
            },
            PipelineStage::List => match event {
                Event::Entries(entries) => match find_wasm_file(&entries) {
                    Ok(Some(path)) => {
                        let mut state = self;
                        state.current = path;
                        state.measure(PipelineStage::MeasureCompiled)
                    },
                    Ok(None) => Step::Stopped(
                        StellarZkError::ContractBuild(
                            concat("no .wasm file found in ", self.target_dir.as_str()),
                        ),
                    ),
                    Err(_) => Step::Stopped(
                        StellarZkError::ContractBuild(
                            concat("more than one .wasm file found in ", self.target_dir.as_str()),
                        ),
                    ),
                },
                other => stray_step(other),
            },
            PipelineStage::MeasureCompiled => match event {
                Event::Size(size) => self.record("cargo build", size).after_compile(size),
                other => stray_step(other),
            },
            PipelineStage::Optimize => match event {
                Event::Exited { success, stdout, stderr } => if success {
                    let mut state = self;
                    state.current = state.pending.clone();
                    state.measure(PipelineStage::MeasureOptimized)
                } else {
                    Step::Stopped(StellarZkError::WasmOptFailed(stderr))
                },
                Event::NotFound { .. } | Event::Failed { .. } => Step::Perform {
                    action: Action::Warn {
                        message: "wasm-opt not found, skipping WASM optimization".to_owned(),
                    },
                    state: self.at(PipelineStage::OptimizeSkipped),
                },
                other => stray_step(other),
            },
            PipelineStage::OptimizeSkipped => match event {
                Event::Done => self.measure(PipelineStage::MeasureOptimized),
                other => stray_step(other),
            },
            PipelineStage::MeasureOptimized => match event {
                Event::Size(size) => self.record("wasm-opt", size).after_optimize(size),
                other => stray_step(other),
            },
            PipelineStage::Strip => match event {
                Event::Exited { success, stdout, stderr } => if success {
                    let mut state = self;
                    state.current = state.pending.clone();
                    state.measure(PipelineStage::MeasureStripped)
                } else {
                    Step::Stopped(StellarZkError::WasmOptFailed(stderr))
                },
                Event::NotFound { .. } | Event::Failed { .. } => Step::Perform {
                    action: Action::Warn {
                        message: "wasm-strip not found, skipping symbol stripping".to_owned(),
                    },
                    state: self.at(PipelineStage::StripSkipped),
                },
                other => stray_step(other),
            },
            PipelineStage::StripSkipped => match event {
                Event::Done => self.measure(PipelineStage::MeasureStripped),
                other => stray_step(other),
            },
            PipelineStage::MeasureStripped => match event {
                Event::Size(size) => self.record("strip", size).check_size(size),
                other => stray_step(other),
            },
        }
    }
}

/// A tool that is not there never fails the build: where the optimizer or
/// the stripper cannot be started, the next step is a warning, and the
/// binary stays as it was.
pub proof fn lemma_missing_tool_never_fails(state: PipelineModel, event: EventModel)
    requires
        state.stage == PipelineStage::Optimize || state.stage == PipelineStage::Strip,
        event is NotFound || event is Failed,
    ensures
        pipeline_next(state, event) matches StepModel::Perform { action, state: next } && action
            is Warn && next.current == state.current && next.stages == state.stages,
{
}

/// What the pipeline hands out is what was measured: the trace as it
/// stands, the size of the last measurement and, where the limit is
/// enforced, a size within the limit.
pub proof fn lemma_output_is_as_measured(state: PipelineModel, size: u64)
    ensures
        size_verdict(state, size) matches StepModel::Finished(output) ==> output.stage_sizes
            == state.stages && output.size_bytes == size && (state.enforce_size_limit ==> size
            <= size_limit()),
{
}

} // verus!
