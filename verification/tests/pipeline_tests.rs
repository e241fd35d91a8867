use stellar_zk::error::StellarZkError;
use stellar_zk::pipeline::{
    build_and_optimize, cargo_args, find_wasm_file, target_dir, PipelineState, PipelineStep,
    WasmOutput,
};
use stellar_zk::process::{Action, Event, Step, ToolCall};
use stellar_zk::profile::OptimizationProfile;

fn exited(success: bool, stderr: &str) -> Event {
    Event::Exited { success, stdout: String::new(), stderr: stderr.to_string() }
}

fn asked(step: PipelineStep) -> (Action, PipelineState) {
    match step {
        Step::Perform { action, state } => (action, state),
        other => panic!("the pipeline ended early: {other:?}"),
    }
}

fn run_of(action: Action) -> ToolCall {
    match action {
        Action::Run(call) => call,
        other => panic!("no run: {other:?}"),
    }
}

fn finished(step: PipelineStep) -> WasmOutput {
    match step {
        Step::Finished(output) => output,
        other => panic!("the pipeline did not finish: {other:?}"),
    }
}

fn stopped(step: PipelineStep) -> StellarZkError {
    match step {
        Step::Stopped(error) => error,
        other => panic!("the pipeline did not stop: {other:?}"),
    }
}

/// Takes the pipeline to the point where the compiled binary of `size` bytes
/// has been measured.
fn compiled(profile: &OptimizationProfile, size: u64) -> PipelineStep {
    let (action, state) = asked(build_and_optimize("contracts/verifier", profile));
    let call = run_of(action);
    assert_eq!(call.program, "cargo");
    assert_eq!(call.cwd.as_deref(), Some("contracts/verifier"));
    let (action, state) = asked(state.advance(exited(true, "")));
    let dir = match action {
        Action::Exists { path } => path,
        other => panic!("{other:?}"),
    };
    let (action, state) = asked(state.advance(Event::Exists(true)));
    assert!(matches!(&action, Action::ListDir { path } if *path == dir));
    let entries = vec![format!("{dir}/verifier.d"), format!("{dir}/verifier.wasm")];
    let (action, state) = asked(state.advance(Event::Entries(entries)));
    assert!(matches!(&action, Action::Size { path } if *path == format!("{dir}/verifier.wasm")));
    state.advance(Event::Size(size))
}

#[test]
fn oversized_binary_stops_a_build_that_enforces_the_limit() {
    let mut profile = OptimizationProfile::development();
    profile.enforce_size_limit = true;
    let error = stopped(compiled(&profile, 65_537));
    match error {
        StellarZkError::WasmTooLarge { size, max, path } => {
            assert_eq!(size, 65_537);
            assert_eq!(max, 65_536);
            assert_eq!(path, "contracts/verifier/target/wasm32-unknown-unknown/debug/verifier.wasm");
        }
        other => panic!("{other:?}"),
    }
}

#[test]
fn oversized_binary_passes_a_build_that_does_not_enforce_the_limit() {
    let profile = OptimizationProfile::development();
    let output = finished(compiled(&profile, 65_537));
    assert_eq!(output.size_bytes, 65_537);
    assert_eq!(output.path, "contracts/verifier/target/wasm32-unknown-unknown/debug/verifier.wasm");
    assert!(!output.optimized);
    assert_eq!(output.stage_sizes, vec![("cargo build".to_string(), 65_537)]);
}

#[test]
fn binary_at_the_limit_passes() {
    let mut profile = OptimizationProfile::development();
    profile.enforce_size_limit = true;
    let output = finished(compiled(&profile, 65_536));
    assert_eq!(output.size_bytes, 65_536);
}

#[test]
fn production_runs_every_stage() {
    let profile = OptimizationProfile::stellar_production();
    let (action, state) = asked(compiled(&profile, 90_000));
    let call = run_of(action);
    assert_eq!(call.program, "wasm-opt");
    let dir = "contracts/verifier/target/wasm32-unknown-unknown/release";
    assert_eq!(
        call.args,
        vec![
            "-Oz".to_string(),
            format!("{dir}/verifier.wasm"),
            "-o".to_string(),
            format!("{dir}/verifier.opt.wasm"),
        ]
    );
    let (action, state) = asked(state.advance(exited(true, "")));
    assert!(matches!(&action, Action::Size { path } if *path == format!("{dir}/verifier.opt.wasm")));
    let (action, state) = asked(state.advance(Event::Size(70_000)));
    let call = run_of(action);
    assert_eq!(call.program, "wasm-strip");
    assert_eq!(
        call.args,
        vec![
            format!("{dir}/verifier.opt.wasm"),
            "-o".to_string(),
            format!("{dir}/verifier.opt.stripped.wasm"),
        ]
    );
    let (action, state) = asked(state.advance(exited(true, "")));
    assert!(
        matches!(&action, Action::Size { path } if *path == format!("{dir}/verifier.opt.stripped.wasm"))
    );
    let output = finished(state.advance(Event::Size(60_000)));
    assert_eq!(output.path, format!("{dir}/verifier.opt.stripped.wasm"));
    assert_eq!(output.size_bytes, 60_000);
    assert!(output.optimized);
    assert_eq!(
        output.stage_sizes,
        vec![
            ("cargo build".to_string(), 90_000),
            ("wasm-opt".to_string(), 70_000),
            ("strip".to_string(), 60_000),
        ]
    );
}

#[test]
fn testnet_optimizes_for_size_and_does_not_strip() {
    let profile = OptimizationProfile::testnet();
    let (action, state) = asked(compiled(&profile, 90_000));
    let call = run_of(action);
    assert_eq!(call.args[0], "-Os");
    let (_, state) = asked(state.advance(exited(true, "")));
    let error = stopped(state.advance(Event::Size(66_000)));
    assert!(matches!(error, StellarZkError::WasmTooLarge { size: 66_000, max: 65_536, .. }));
}

#[test]
fn missing_optimizer_is_passed_over_with_a_warning() {
    let profile = OptimizationProfile::testnet();
    let (_, state) = asked(compiled(&profile, 50_000));
    let (action, state) =
        asked(state.advance(Event::NotFound { message: "No such file or directory".to_string() }));
    match action {
        Action::Warn { message } => {
            assert_eq!(message, "wasm-opt not found, skipping WASM optimization")
        }
        other => panic!("{other:?}"),
    }
    let (action, state) = asked(state.advance(Event::Done));
    // the binary goes on as it is
    assert!(matches!(&action, Action::Size { path } if path.ends_with("/verifier.wasm")));
    let output = finished(state.advance(Event::Size(50_000)));
    assert!(output.path.ends_with("/verifier.wasm"));
    assert_eq!(
        output.stage_sizes,
        vec![("cargo build".to_string(), 50_000), ("wasm-opt".to_string(), 50_000)]
    );
}

#[test]
fn missing_stripper_is_passed_over_with_a_warning() {
    let mut profile = OptimizationProfile::development();
    profile.strip_symbols = true;
    let (action, state) = asked(compiled(&profile, 50_000));
    assert_eq!(run_of(action).program, "wasm-strip");
    let (action, state) =
        asked(state.advance(Event::Failed { message: "permission denied".to_string() }));
    match action {
        Action::Warn { message } => {
            assert_eq!(message, "wasm-strip not found, skipping symbol stripping")
        }
        other => panic!("{other:?}"),
    }
    let (_, state) = asked(state.advance(Event::Done));
    let output = finished(state.advance(Event::Size(50_000)));
    assert!(output.path.ends_with("/verifier.wasm"));
    assert_eq!(output.stage_sizes[1], ("strip".to_string(), 50_000));
}

#[test]
fn failing_optimizer_stops_the_build_with_its_own_words() {
    let profile = OptimizationProfile::testnet();
    let (_, state) = asked(compiled(&profile, 50_000));
    let error = stopped(state.advance(exited(false, "validation error at 0x1f")));
    match error {
        StellarZkError::WasmOptFailed(text) => assert_eq!(text, "validation error at 0x1f"),
        other => panic!("{other:?}"),
    }
}

#[test]
fn failing_compiler_stops_the_build_with_its_own_words() {
    let profile = OptimizationProfile::development();
    let (_, state) = asked(build_and_optimize("c", &profile));
    let error = stopped(state.advance(exited(false, "error[E0425]: cannot find value")));
    match error {
        StellarZkError::ContractBuild(text) => assert_eq!(text, "error[E0425]: cannot find value"),
        other => panic!("{other:?}"),
    }
}

#[test]
fn compiler_that_cannot_be_started_is_an_io_error() {
    let profile = OptimizationProfile::development();
    let (_, state) = asked(build_and_optimize("c", &profile));
    let error = stopped(state.advance(Event::NotFound { message: "cargo: not found".to_string() }));
    assert!(matches!(error, StellarZkError::Io(text) if text == "cargo: not found"));
}

#[test]
fn no_binary_and_several_binaries_are_errors() {
    let profile = OptimizationProfile::development();
    let listing = |entries: Vec<String>| {
        let (_, state) = asked(build_and_optimize("c", &profile));
        let (_, state) = asked(state.advance(exited(true, "")));
        let (_, state) = asked(state.advance(Event::Exists(true)));
        state.advance(Event::Entries(entries))
    };
    let none = stopped(listing(vec!["c/target/x/a.d".to_string()]));
    assert!(matches!(
        none,
        StellarZkError::ContractBuild(text)
            if text == "no .wasm file found in c/target/wasm32-unknown-unknown/debug"
    ));
    let two = stopped(listing(vec!["a.wasm".to_string(), "b.wasm".to_string()]));
    assert!(matches!(
        two,
        StellarZkError::ContractBuild(text)
            if text == "more than one .wasm file found in c/target/wasm32-unknown-unknown/debug"
    ));

    let (_, state) = asked(build_and_optimize("c", &profile));
    let (_, state) = asked(state.advance(exited(true, "")));
    let missing_dir = stopped(state.advance(Event::Exists(false)));
    assert!(matches!(missing_dir, StellarZkError::ContractBuild(text) if text.starts_with("no .wasm")));
}

#[test]
fn an_event_out_of_turn_stops_the_build() {
    let profile = OptimizationProfile::development();
    let (_, state) = asked(build_and_optimize("c", &profile));
    let error = stopped(state.advance(Event::Size(1)));
    assert!(matches!(error, StellarZkError::Other(_)));
}

#[test]
fn compiler_arguments_go_by_the_cargo_profile() {
    assert_eq!(cargo_args("dev"), vec!["build", "--target", "wasm32-unknown-unknown"]);
    assert_eq!(
        cargo_args("release"),
        vec!["build", "--target", "wasm32-unknown-unknown", "--release"]
    );
    assert_eq!(
        cargo_args("release-testnet"),
        vec!["build", "--target", "wasm32-unknown-unknown", "--profile", "release-testnet"]
    );
    assert_eq!(target_dir("c", "dev"), "c/target/wasm32-unknown-unknown/debug");
    assert_eq!(target_dir("c", "release"), "c/target/wasm32-unknown-unknown/release");
    assert_eq!(target_dir("c", "custom"), "c/target/wasm32-unknown-unknown/release");
}

#[test]
fn the_binary_is_the_one_entry_with_the_extension() {
    let entries = |names: &[&str]| names.iter().map(|s| s.to_string()).collect::<Vec<_>>();
    assert_eq!(find_wasm_file(&entries(&[])), Ok(None));
    assert_eq!(find_wasm_file(&entries(&["a.txt", "wasm", ".wasm", "b.wasm.bak"])), Ok(None));
    assert_eq!(
        find_wasm_file(&entries(&["a.txt", "dir/b.wasm"])),
        Ok(Some("dir/b.wasm".to_string()))
    );
    assert_eq!(find_wasm_file(&entries(&["a.wasm", "x", "b.wasm"])), Err(()));
}
