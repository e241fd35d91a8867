use stellar_zk::backend::{
    advance_build, advance_prove, public_inputs_info, BackendKind, BuildArtifacts, BuildState,
    BuildStep, ProofArtifacts, ProveState, ProveStep, ZkBackend,
};
use stellar_zk::cli::{create_backend, log_filter, BackendChoice, NetworkChoice, ProfileChoice};
use stellar_zk::config::{
    BackendConfig, ContractConfig, Groth16Config, ProjectConfig, Risc0Config, UltraHonkConfig,
};
use stellar_zk::error::StellarZkError;
use stellar_zk::groth16::Groth16Backend;
use stellar_zk::json::JsonValue;
use stellar_zk::process::{Action, Event, Step, ToolCall};
use stellar_zk::profile::OptimizationProfile;
use stellar_zk::risc0::serializer::RISC0_SELECTOR;
use stellar_zk::risc0::Risc0Backend;
use stellar_zk::tools::{report_missing, report_outdated, Requirement};
use stellar_zk::ultrahonk::UltraHonkBackend;
use stellar_zk::version::Version;

fn config() -> BackendConfig {
    BackendConfig {
        groth16: Some(Groth16Config {}),
        ultrahonk: Some(UltraHonkConfig { oracle_hash: "poseidon".to_string() }),
        risc0: Some(Risc0Config {
            guest_target: "riscv32im-risc0-zkvm-elf".to_string(),
            segment_limit_po2: 20,
            groth16_wrap: true,
        }),
    }
}

fn no_config() -> BackendConfig {
    BackendConfig { groth16: None, ultrahonk: None, risc0: None }
}

fn ok() -> Event {
    Event::Exited { success: true, stdout: "out".to_string(), stderr: String::new() }
}

fn failed(stderr: &str) -> Event {
    Event::Exited { success: false, stdout: "out".to_string(), stderr: stderr.to_string() }
}

fn build_asked(step: BuildStep) -> (Action, BuildState) {
    match step {
        Step::Perform { action, state } => (action, state),
        other => panic!("the build ended early: {other:?}"),
    }
}

fn prove_asked(step: ProveStep) -> (Action, ProveState) {
    match step {
        Step::Perform { action, state } => (action, state),
        other => panic!("the proof ended early: {other:?}"),
    }
}

fn build_stopped(step: BuildStep) -> StellarZkError {
    match step {
        Step::Stopped(error) => error,
        other => panic!("the build did not stop: {other:?}"),
    }
}

fn prove_stopped(step: ProveStep) -> StellarZkError {
    match step {
        Step::Stopped(error) => error,
        other => panic!("the proof did not stop: {other:?}"),
    }
}

fn run_of(action: Action) -> ToolCall {
    match action {
        Action::Run(call) => call,
        other => panic!("no run: {other:?}"),
    }
}

fn path_of(action: &Action) -> &str {
    match action {
        Action::CreateDirAll { path }
        | Action::Exists { path }
        | Action::ReadText { path }
        | Action::ReadBytes { path }
        | Action::ReadJson { path }
        | Action::Write { path, .. }
        | Action::WriteJson { path, .. }
        | Action::Remove { path }
        | Action::Size { path }
        | Action::ListDir { path } => path,
        other => panic!("no path: {other:?}"),
    }
}

fn strings(items: &[&str]) -> Vec<String> {
    items.iter().map(|s| s.to_string()).collect()
}

fn g1(x: &str, y: &str) -> JsonValue {
    JsonValue::array(vec![JsonValue::text(x), JsonValue::text(y), JsonValue::text("1")])
}

fn g2(x0: &str, x1: &str, y0: &str, y1: &str) -> JsonValue {
    JsonValue::array(vec![
        JsonValue::array(vec![JsonValue::text(x0), JsonValue::text(x1)]),
        JsonValue::array(vec![JsonValue::text(y0), JsonValue::text(y1)]),
    ])
}

fn object(entries: Vec<(&str, JsonValue)>) -> JsonValue {
    JsonValue::object(entries.into_iter().map(|(k, v)| (k.to_string(), v)).collect())
}

fn key_document() -> JsonValue {
    object(vec![
        ("vk_alpha_1", g1("1", "2")),
        ("vk_beta_2", g2("3", "4", "5", "6")),
        ("vk_gamma_2", g2("7", "8", "9", "10")),
        ("vk_delta_2", g2("11", "12", "13", "14")),
        ("IC", JsonValue::array(vec![g1("100", "200")])),
    ])
}

fn proof_document() -> JsonValue {
    object(vec![
        ("pi_a", g1("1", "2")),
        ("pi_b", g2("3", "4", "5", "6")),
        ("pi_c", g1("7", "8")),
    ])
}

/// Takes a build through the pipeline of a development profile, from the
/// step that starts the compiler on.
fn through_pipeline(action: Action, state: BuildState) -> BuildStep {
    let call = run_of(action);
    assert_eq!(call.program, "cargo");
    assert_eq!(call.cwd.as_deref(), Some("proj/contracts/verifier"));
    let (_, state) = build_asked(advance_build(state, ok()));
    let (action, state) = build_asked(advance_build(state, Event::Exists(true)));
    let dir = path_of(&action).to_string();
    let (_, state) =
        build_asked(advance_build(state, Event::Entries(vec![format!("{dir}/verifier.wasm")])));
    advance_build(state, Event::Size(1234))
}

#[test]
fn names_of_the_backends() {
    assert_eq!(Groth16Backend::new().name(), "groth16");
    assert_eq!(UltraHonkBackend::new().name(), "ultrahonk");
    assert_eq!(Risc0Backend::new().name(), "risc0");
    assert_eq!(Groth16Backend::new().display_name(), "Groth16 (Circom + snarkjs)");
    assert_eq!(UltraHonkBackend::new().display_name(), "Noir + UltraHonk (Barretenberg)");
    assert_eq!(Risc0Backend::new().display_name(), "RISC Zero (zkVM)");
    assert_eq!(BackendKind::from_name("risc0"), Some(BackendKind::Risc0));
    assert_eq!(BackendKind::from_name("Risc0"), None);
}

#[test]
fn backend_by_name() {
    for name in ["groth16", "ultrahonk", "risc0"] {
        assert_eq!(create_backend(name).unwrap().name(), name);
    }
    match create_backend("plonky2") {
        Err(StellarZkError::UnknownBackend(name)) => assert_eq!(name, "plonky2"),
        _ => panic!("a backend for plonky2"),
    }
    assert!(create_backend("").is_err());
}

#[test]
fn choices_have_their_names() {
    assert_eq!(BackendChoice::Groth16.as_str(), "groth16");
    assert_eq!(BackendChoice::Ultrahonk.as_str(), "ultrahonk");
    assert_eq!(BackendChoice::Risc0.as_str(), "risc0");
    assert_eq!(ProfileChoice::Development.as_str(), "development");
    assert_eq!(ProfileChoice::Testnet.as_str(), "testnet");
    assert_eq!(ProfileChoice::StellarProduction.as_str(), "stellar-production");
    assert_eq!(NetworkChoice::Local.as_str(), "local");
    assert_eq!(NetworkChoice::Testnet.as_str(), "testnet");
    assert_eq!(NetworkChoice::Mainnet.as_str(), "mainnet");
    for choice in [ProfileChoice::Development, ProfileChoice::Testnet, ProfileChoice::StellarProduction]
    {
        assert!(OptimizationProfile::from_name(choice.as_str()).is_some());
    }
    assert_eq!(log_filter(0), "warn");
    assert_eq!(log_filter(1), "info");
    assert_eq!(log_filter(2), "debug");
    assert_eq!(log_filter(3), "trace");
    assert_eq!(log_filter(255), "trace");
}

#[test]
fn missing_tools_are_reported_in_order() {
    let requirements = BackendKind::Groth16.requirements();
    assert_eq!(requirements.len(), 3);
    assert!(report_missing(&requirements, &vec![true, true, true]).is_ok());
    let missing = report_missing(&requirements, &vec![false, true, false]).unwrap_err();
    assert_eq!(missing.len(), 2);
    assert_eq!(missing[0].tool_name, "circom");
    assert_eq!(
        missing[0].install_instructions,
        "https://docs.circom.io/getting-started/installation/"
    );
    assert_eq!(missing[1].tool_name, "node");
    // a tool that nothing is known of counts as missing
    let missing = report_missing(&requirements, &vec![true]).unwrap_err();
    assert_eq!(missing.len(), 2);
    assert_eq!(missing[0].tool_name, "snarkjs");
    assert_eq!(missing[0].install_instructions, "npm install -g snarkjs");
}

#[test]
fn required_tools_of_each_backend() {
    let names = |kind: BackendKind| {
        kind.requirements().iter().map(|r| (r.program, r.tool_name)).collect::<Vec<_>>()
    };
    assert_eq!(
        names(BackendKind::Groth16),
        vec![("circom", "circom"), ("snarkjs", "snarkjs"), ("node", "node")]
    );
    assert_eq!(names(BackendKind::UltraHonk), vec![("nargo", "nargo"), ("bb", "bb (Barretenberg)")]);
    assert_eq!(
        names(BackendKind::Risc0),
        vec![("cargo-risczero", "cargo-risczero"), ("docker", "docker")]
    );
}

#[test]
fn prerequisites_that_are_reported_are_required() {
    let tool = Requirement {
        program: "this_tool_does_not_exist_xyz",
        tool_name: "xyz",
        install_instructions: "nowhere",
    };
    let missing = stellar_zk::tools::check_tools(&vec![tool]).unwrap_err();
    assert_eq!(missing.len(), 1);
    assert_eq!(missing[0].tool_name, "xyz");
    assert_eq!(missing[0].install_instructions, "nowhere");
    assert!(stellar_zk::tools::check_tools(&vec![]).is_ok());

    for backend in [
        create_backend("groth16").unwrap(),
        create_backend("ultrahonk").unwrap(),
        create_backend("risc0").unwrap(),
    ] {
        if let Err(missing) = backend.check_prerequisites() {
            assert!(!missing.is_empty());
            assert!(missing.len() <= 3);
        }
    }
}

#[test]
fn old_versions_are_warned_of() {
    let backend = UltraHonkBackend::new();
    let minimums = backend.minimum_versions();
    assert_eq!(
        minimums,
        vec![
            ("nargo", Version { major: 0, minor: 36, patch: 0 }),
            ("bb", Version { major: 0, minor: 56, patch: 0 }),
        ]
    );
    let old = Version { major: 0, minor: 35, patch: 9 };
    let new = Version { major: 0, minor: 56, patch: 0 };
    let warnings = backend.check_versions(&vec![Some(old), Some(new)]);
    assert_eq!(warnings.len(), 1);
    assert_eq!(warnings[0].tool_name, "nargo");
    assert_eq!(warnings[0].found_version, "0.35.9");
    assert_eq!(warnings[0].minimum_version, "0.36.0");
    // a version that could not be told is passed over
    assert!(backend.check_versions(&vec![None, None]).is_empty());
    assert!(backend.check_versions(&vec![]).is_empty());
    let both = backend.check_versions(&vec![Some(old), Some(old)]);
    assert_eq!(both.len(), 2);
    assert_eq!(both[1].tool_name, "bb");
    assert_eq!(both[1].minimum_version, "0.56.0");

    assert!(Groth16Backend::new().minimum_versions().is_empty());
    assert!(Groth16Backend::new().check_versions(&vec![Some(old)]).is_empty());
    assert!(Risc0Backend::new().check_versions(&vec![Some(old)]).is_empty());
    assert!(report_outdated(&vec![("x", new)], &vec![Some(new)]).is_empty());
}

#[test]
fn a_new_project_needs_nothing_from_a_backend() {
    let project = ProjectConfig {
        backend: "groth16".to_string(),
        profile: "development".to_string(),
        contract: ContractConfig { name: "verifier".to_string() },
    };
    assert!(Groth16Backend::new().init_project("proj", &project).is_ok());
    assert!(UltraHonkBackend::new().init_project("proj", &project).is_ok());
    assert!(Risc0Backend::new().init_project("proj", &project).is_ok());
}

#[test]
fn cost_goes_by_the_public_inputs_of_the_proof() {
    let artifacts = BuildArtifacts {
        circuit_artifact: "a".to_string(),
        verifier_wasm: "b".to_string(),
        proving_key: None,
        verification_key: "c".to_string(),
    };
    let proof = ProofArtifacts {
        proof: vec![],
        public_inputs: vec![[0u8; 32]; 4],
        proof_path: "p".to_string(),
    };
    let g = Groth16Backend::new().estimate_cost("proj", &proof, &artifacts).unwrap();
    assert_eq!(g.cpu_instructions, 12_000_000);
    let u = UltraHonkBackend::new().estimate_cost("proj", &proof, &artifacts).unwrap();
    assert_eq!(u.cpu_instructions, 35_800_000);
    let r = Risc0Backend::new().estimate_cost("proj", &proof, &artifacts).unwrap();
    assert_eq!(r.cpu_instructions, 15_000_000);
}

#[test]
fn a_build_without_settings_touches_nothing() {
    let profile = OptimizationProfile::development();
    let groth16 = build_stopped(Groth16Backend::new().build("proj", &no_config(), &profile));
    assert!(
        matches!(groth16, StellarZkError::CircuitCompilation(text) if text == "missing groth16 config")
    );
    let ultrahonk = build_stopped(UltraHonkBackend::new().build("proj", &no_config(), &profile));
    assert!(
        matches!(ultrahonk, StellarZkError::CircuitCompilation(text) if text == "missing ultrahonk config")
    );
    let risc0 = build_stopped(Risc0Backend::new().build("proj", &no_config(), &profile));
    assert!(
        matches!(risc0, StellarZkError::CircuitCompilation(text) if text == "missing risc0 config")
    );
}

#[test]
fn groth16_build_with_a_new_ceremony() {
    let profile = OptimizationProfile::development();
    let (action, state) = build_asked(Groth16Backend::new().build("proj", &config(), &profile));
    assert!(matches!(&action, Action::CreateDirAll { path } if path == "proj/target"));

    let (action, state) = build_asked(advance_build(state, Event::Done));
    let call = run_of(action);
    assert_eq!(call.program, "circom");
    assert_eq!(
        call.args,
        strings(&["proj/circuits/main.circom", "--r1cs", "--wasm", "--sym", "-o", "proj/target"])
    );

    let (action, state) = build_asked(advance_build(state, ok()));
    assert!(matches!(&action, Action::Exists { path } if path == "proj/target/pot12_final.ptau"));

    let (action, state) = build_asked(advance_build(state, Event::Exists(false)));
    let call = run_of(action);
    assert_eq!(call.program, "snarkjs");
    assert_eq!(
        call.args,
        strings(&["powersoftau", "new", "bn128", "12", "proj/target/pot12_final.ptau.tmp"])
    );

    let (action, state) = build_asked(advance_build(state, ok()));
    assert_eq!(
        run_of(action).args,
        strings(&[
            "powersoftau",
            "contribute",
            "proj/target/pot12_final.ptau.tmp",
            "proj/target/pot12_final.ptau.contributed",
            "--name=dev",
            "-e=stellar-zk-dev-entropy",
        ])
    );

    let (action, state) = build_asked(advance_build(state, ok()));
    assert_eq!(
        run_of(action).args,
        strings(&[
            "powersoftau",
            "prepare",
            "phase2",
            "proj/target/pot12_final.ptau.contributed",
            "proj/target/pot12_final.ptau",
        ])
    );

    let (action, state) = build_asked(advance_build(state, ok()));
    assert!(matches!(&action, Action::Remove { path } if path == "proj/target/pot12_final.ptau.tmp"));
    // what comes of removing the files does not matter
    let (action, state) =
        build_asked(advance_build(state, Event::Failed { message: "busy".to_string() }));
    assert!(
        matches!(&action, Action::Remove { path } if path == "proj/target/pot12_final.ptau.contributed")
    );

    let (action, state) = build_asked(advance_build(state, Event::Done));
    assert_eq!(
        run_of(action).args,
        strings(&[
            "groth16",
            "setup",
            "proj/target/main.r1cs",
            "proj/target/pot12_final.ptau",
            "proj/target/circuit.zkey",
        ])
    );

    let (action, state) = build_asked(advance_build(state, ok()));
    assert_eq!(
        run_of(action).args,
        strings(&[
            "zkey",
            "export",
            "verificationkey",
            "proj/target/circuit.zkey",
            "proj/target/verification_key.json",
        ])
    );

    let (action, state) = build_asked(advance_build(state, ok()));
    assert!(
        matches!(&action, Action::ReadJson { path } if path == "proj/target/verification_key.json")
    );

    let (action, state) = build_asked(advance_build(state, Event::Json(key_document())));
    match &action {
        Action::Write { path, content } => {
            assert_eq!(path, "proj/target/verification.key");
            assert_eq!(content.len(), 452 + 64);
            assert_eq!(&content[448..452], &[0, 0, 0, 1]);
        }
        other => panic!("{other:?}"),
    }

    let (action, state) = build_asked(advance_build(state, Event::Done));
    match through_pipeline(action, state) {
        Step::Finished(artifacts) => {
            assert_eq!(artifacts.circuit_artifact, "proj/target/main.r1cs");
            assert_eq!(
                artifacts.verifier_wasm,
                "proj/contracts/verifier/target/wasm32-unknown-unknown/debug/verifier.wasm"
            );
            assert_eq!(artifacts.proving_key.as_deref(), Some("proj/target/circuit.zkey"));
            assert_eq!(artifacts.verification_key, "proj/target/verification.key");
        }
        other => panic!("{other:?}"),
    }
}

#[test]
fn groth16_build_keeps_a_ceremony_that_is_there() {
    let profile = OptimizationProfile::development();
    let (_, state) = build_asked(Groth16Backend::new().build("proj", &config(), &profile));
    let (_, state) = build_asked(advance_build(state, Event::Done));
    let (_, state) = build_asked(advance_build(state, ok()));
    let (action, _) = build_asked(advance_build(state, Event::Exists(true)));
    assert_eq!(run_of(action).args[..2], strings(&["groth16", "setup"])[..]);
}

#[test]
fn groth16_build_failures() {
    let profile = OptimizationProfile::development();
    let compile = || {
        let (_, state) = build_asked(Groth16Backend::new().build("proj", &config(), &profile));
        let (_, state) = build_asked(advance_build(state, Event::Done));
        state
    };
    let error = build_stopped(advance_build(compile(), failed("error[T2021]: syntax")));
    assert!(matches!(error, StellarZkError::CircuitCompilation(text) if text == "error[T2021]: syntax"));

    let error =
        build_stopped(advance_build(compile(), Event::NotFound { message: "no".to_string() }));
    match error {
        StellarZkError::MissingTool { name, install } => {
            assert_eq!(name, "circom");
            assert_eq!(install, "npm install -g circom");
        }
        other => panic!("{other:?}"),
    }

    let error = build_stopped(advance_build(
        compile(),
        Event::Failed { message: "permission denied".to_string() },
    ));
    assert!(matches!(error, StellarZkError::CircuitCompilation(text) if text == "permission denied"));

    // the directory cannot be made
    let (_, state) = build_asked(Groth16Backend::new().build("proj", &config(), &profile));
    let error =
        build_stopped(advance_build(state, Event::Failed { message: "read-only".to_string() }));
    assert!(matches!(error, StellarZkError::Io(text) if text == "read-only"));

    // snarkjs fails
    let (_, state) = build_asked(advance_build(compile(), ok()));
    let (_, state) = build_asked(advance_build(state, Event::Exists(true)));
    let error = build_stopped(advance_build(state, failed("bad r1cs")));
    assert!(matches!(
        error,
        StellarZkError::ProofGeneration(text)
            if text == "snarkjs groth16 failed:\nstdout: out\nstderr: bad r1cs"
    ));

    let (_, state) = build_asked(advance_build(compile(), ok()));
    let (_, state) = build_asked(advance_build(state, Event::Exists(true)));
    let error =
        build_stopped(advance_build(state, Event::NotFound { message: "no".to_string() }));
    assert!(matches!(error, StellarZkError::MissingTool { name, .. } if name == "snarkjs"));

    let (_, state) = build_asked(advance_build(compile(), ok()));
    let (_, state) = build_asked(advance_build(state, Event::Exists(true)));
    let error =
        build_stopped(advance_build(state, Event::Failed { message: "EACCES".to_string() }));
    assert!(matches!(
        error,
        StellarZkError::ProofGeneration(text) if text == "failed to run snarkjs: EACCES"
    ));
}

#[test]
fn groth16_build_never_writes_a_key_that_cannot_be_converted() {
    let profile = OptimizationProfile::development();
    let read_key = || {
        let (_, state) = build_asked(Groth16Backend::new().build("proj", &config(), &profile));
        let (_, state) = build_asked(advance_build(state, Event::Done));
        let (_, state) = build_asked(advance_build(state, ok()));
        let (_, state) = build_asked(advance_build(state, Event::Exists(true)));
        let (_, state) = build_asked(advance_build(state, ok()));
        let (_, state) = build_asked(advance_build(state, ok()));
        state
    };
    let error = build_stopped(advance_build(read_key(), Event::Json(JsonValue::Null)));
    assert!(matches!(
        error,
        StellarZkError::ProofGeneration(text)
            if text == "VK serialization: vk.vk_alpha_1 must be an array"
    ));
    let error = build_stopped(advance_build(
        read_key(),
        Event::Malformed { message: "expected value at line 1 column 1".to_string() },
    ));
    assert!(matches!(
        error,
        StellarZkError::ProofGeneration(text)
            if text == "failed to parse verification_key.json: expected value at line 1 column 1"
    ));
    let error = build_stopped(advance_build(
        read_key(),
        Event::NotFound { message: "gone".to_string() },
    ));
    assert!(matches!(error, StellarZkError::Io(text) if text == "gone"));
}

fn groth16_artifacts() -> BuildArtifacts {
    BuildArtifacts {
        circuit_artifact: "proj/target/main.r1cs".to_string(),
        verifier_wasm: "proj/v.wasm".to_string(),
        proving_key: Some("proj/target/circuit.zkey".to_string()),
        verification_key: "proj/target/verification.key".to_string(),
    }
}

#[test]
fn groth16_proof() {
    let backend = Groth16Backend::new();
    let (action, state) =
        prove_asked(backend.prove("proj", &groth16_artifacts(), "proj/inputs/input.json"));
    assert!(matches!(&action, Action::Exists { path } if path == "proj/inputs/input.json"));
    let (action, state) = prove_asked(advance_prove(state, Event::Exists(true)));
    assert!(matches!(&action, Action::CreateDirAll { path } if path == "proj/proofs"));
    let (action, state) = prove_asked(advance_prove(state, Event::Done));
    assert!(matches!(&action, Action::Exists { path } if path == "proj/target/main_js/main.wasm"));
    let (action, state) = prove_asked(advance_prove(state, Event::Exists(true)));
    assert_eq!(
        run_of(action).args,
        strings(&[
            "wtns",
            "calculate",
            "proj/target/main_js/main.wasm",
            "proj/inputs/input.json",
            "proj/target/witness.wtns",
        ])
    );
    let (action, state) = prove_asked(advance_prove(state, ok()));
    assert_eq!(
        run_of(action).args,
        strings(&[
            "groth16",
            "prove",
            "proj/target/circuit.zkey",
            "proj/target/witness.wtns",
            "proj/proofs/proof.json",
            "proj/proofs/public.json",
        ])
    );
    let (action, state) = prove_asked(advance_prove(state, ok()));
    assert!(matches!(&action, Action::ReadJson { path } if path == "proj/proofs/proof.json"));
    let (action, state) = prove_asked(advance_prove(state, Event::Json(proof_document())));
    assert!(matches!(&action, Action::ReadJson { path } if path == "proj/proofs/public.json"));
    let inputs = JsonValue::array(vec![JsonValue::text("42"), JsonValue::text("1771")]);
    let (action, state) = prove_asked(advance_prove(state, Event::Json(inputs)));
    match &action {
        Action::Write { path, content } => {
            assert_eq!(path, "proj/proofs/proof.bin");
            assert_eq!(content.len(), 256);
            assert_eq!(content[31], 1);
            assert_eq!(content[95], 4);
        }
        other => panic!("{other:?}"),
    }
    let (action, state) = prove_asked(advance_prove(state, Event::Done));
    match &action {
        Action::WriteJson { path, value, pretty } => {
            assert_eq!(path, "proj/proofs/public_inputs.json");
            assert!(*pretty);
            assert_eq!(value.get_u64("count"), Some(2));
            assert_eq!(value.get_u64("total_proof_size"), Some(256));
            let hexes = value.get_array("public_inputs_hex").unwrap();
            assert_eq!(hexes.len(), 2);
            assert_eq!(
                hexes[0].as_str(),
                Some("000000000000000000000000000000000000000000000000000000000000002a")
            );
            assert_eq!(
                hexes[1].as_str(),
                Some("00000000000000000000000000000000000000000000000000000000000006eb")
            );
        }
        other => panic!("{other:?}"),
    }
    match advance_prove(state, Event::Done) {
        Step::Finished(artifacts) => {
            assert_eq!(artifacts.proof.len(), 256);
            assert_eq!(artifacts.public_inputs.len(), 2);
            assert_eq!(artifacts.public_inputs[0][31], 42);
            assert_eq!(artifacts.proof_path, "proj/proofs/proof.bin");
        }
        other => panic!("{other:?}"),
    }
}

#[test]
fn groth16_proof_failures() {
    let backend = Groth16Backend::new();
    let start = || prove_asked(backend.prove("proj", &groth16_artifacts(), "in.json")).1;

    let error = prove_stopped(advance_prove(start(), Event::Exists(false)));
    assert!(matches!(error, StellarZkError::InputNotFound(path) if path == "in.json"));

    let (_, state) = prove_asked(advance_prove(start(), Event::Exists(true)));
    let (_, state) = prove_asked(advance_prove(state, Event::Done));
    let error = prove_stopped(advance_prove(state, Event::Exists(false)));
    assert!(matches!(
        error,
        StellarZkError::ProofGeneration(text)
            if text == "witness generator WASM not found: proj/target/main_js/main.wasm. Run 'stellar-zk build' first."
    ));

    // a proof that cannot be encoded is not written
    let to_read = || {
        let (_, state) = prove_asked(advance_prove(start(), Event::Exists(true)));
        let (_, state) = prove_asked(advance_prove(state, Event::Done));
        let (_, state) = prove_asked(advance_prove(state, Event::Exists(true)));
        let (_, state) = prove_asked(advance_prove(state, ok()));
        let (_, state) = prove_asked(advance_prove(state, ok()));
        state
    };
    let error = prove_stopped(advance_prove(to_read(), Event::Json(JsonValue::Null)));
    assert!(matches!(
        error,
        StellarZkError::ProofGeneration(text)
            if text == "proof serialization: proof.pi_a must be an array"
    ));
    let error = prove_stopped(advance_prove(
        to_read(),
        Event::Malformed { message: "EOF".to_string() },
    ));
    assert!(matches!(
        error,
        StellarZkError::ProofGeneration(text) if text == "failed to parse proof.json: EOF"
    ));
    let (_, state) = prove_asked(advance_prove(to_read(), Event::Json(proof_document())));
    let error = prove_stopped(advance_prove(state, Event::Json(JsonValue::text("x"))));
    assert!(matches!(
        error,
        StellarZkError::ProofGeneration(text)
            if text == "public input serialization: public inputs must be an array"
    ));

    // artifacts without a proving key
    let mut artifacts = groth16_artifacts();
    artifacts.proving_key = None;
    let (_, state) = prove_asked(backend.prove("proj", &artifacts, "in.json"));
    let (_, state) = prove_asked(advance_prove(state, Event::Exists(true)));
    let (_, state) = prove_asked(advance_prove(state, Event::Done));
    let (_, state) = prove_asked(advance_prove(state, Event::Exists(true)));
    let error = prove_stopped(advance_prove(state, ok()));
    assert!(matches!(
        error,
        StellarZkError::ProofGeneration(text) if text.starts_with("zkey path not set")
    ));
}

#[test]
fn ultrahonk_build() {
    let profile = OptimizationProfile::development();
    let (action, state) = build_asked(UltraHonkBackend::new().build("proj", &config(), &profile));
    assert!(matches!(&action, Action::CreateDirAll { path } if path == "proj/target"));
    let (action, state) = build_asked(advance_build(state, Event::Done));
    let call = run_of(action);
    assert_eq!(call.program, "nargo");
    assert_eq!(call.args, strings(&["compile"]));
    assert_eq!(call.cwd.as_deref(), Some("proj/circuits"));
    let (action, state) = build_asked(advance_build(state, ok()));
    let call = run_of(action);
    assert_eq!(call.program, "bb");
    assert_eq!(
        call.args,
        strings(&[
            "write_vk",
            "--oracle_hash",
            "poseidon",
            "-b",
            "proj/target/circuits.json",
            "-o",
            "proj/target/vk",
        ])
    );
    let (action, state) = build_asked(advance_build(state, ok()));
    match &action {
        Action::WriteJson { path, value, pretty } => {
            assert_eq!(path, "proj/target/ultrahonk_config.json");
            assert!(!*pretty);
            assert_eq!(value.get_str("oracle_hash"), Some("poseidon"));
        }
        other => panic!("{other:?}"),
    }
    let (action, state) = build_asked(advance_build(state, Event::Done));
    match through_pipeline(action, state) {
        Step::Finished(artifacts) => {
            assert_eq!(artifacts.circuit_artifact, "proj/target/circuits.json");
            assert_eq!(artifacts.proving_key, None);
            assert_eq!(artifacts.verification_key, "proj/target/vk");
        }
        other => panic!("{other:?}"),
    }
}

#[test]
fn ultrahonk_build_failures() {
    let profile = OptimizationProfile::development();
    let (_, state) = build_asked(UltraHonkBackend::new().build("proj", &config(), &profile));
    let (_, state) = build_asked(advance_build(state, Event::Done));
    let error =
        build_stopped(advance_build(state, Event::NotFound { message: "no".to_string() }));
    match error {
        StellarZkError::MissingTool { name, install } => {
            assert_eq!(name, "nargo");
            assert_eq!(install, "noirup");
        }
        other => panic!("{other:?}"),
    }
    let (_, state) = build_asked(UltraHonkBackend::new().build("proj", &config(), &profile));
    let (_, state) = build_asked(advance_build(state, Event::Done));
    let (_, state) = build_asked(advance_build(state, ok()));
    let error = build_stopped(advance_build(state, failed("bad acir")));
    assert!(matches!(error, StellarZkError::CircuitCompilation(text) if text == "bad acir"));
}

fn ultrahonk_artifacts() -> BuildArtifacts {
    BuildArtifacts {
        circuit_artifact: "proj/target/circuits.json".to_string(),
        verifier_wasm: "proj/v.wasm".to_string(),
        proving_key: None,
        verification_key: "proj/target/vk".to_string(),
    }
}

#[test]
fn ultrahonk_proof() {
    let backend = UltraHonkBackend::new();
    let (_, state) = prove_asked(backend.prove("proj", &ultrahonk_artifacts(), "in.toml"));
    let (_, state) = prove_asked(advance_prove(state, Event::Exists(true)));
    let (action, state) = prove_asked(advance_prove(state, Event::Done));
    assert!(
        matches!(&action, Action::ReadJson { path } if path == "proj/target/ultrahonk_config.json")
    );
    let kept = JsonValue::object(vec![("oracle_hash".to_string(), JsonValue::text("poseidon"))]);
    let (action, state) = prove_asked(advance_prove(state, Event::Json(kept)));
    let call = run_of(action);
    assert_eq!(call.program, "nargo");
    assert_eq!(call.args, strings(&["execute"]));
    let (action, state) = prove_asked(advance_prove(state, ok()));
    assert_eq!(
        run_of(action).args,
        strings(&[
            "prove_ultra_honk",
            "--oracle_hash",
            "poseidon",
            "-b",
            "proj/target/circuits.json",
            "-w",
            "proj/target/witness",
            "-o",
            "proj/proofs/proof.bin",
        ])
    );
    let (action, state) = prove_asked(advance_prove(state, ok()));
    assert_eq!(
        run_of(action).args,
        strings(&[
            "verify_ultra_honk",
            "--oracle_hash",
            "poseidon",
            "-p",
            "proj/proofs/proof.bin",
            "-k",
            "proj/target/vk",
        ])
    );
    let (action, state) = prove_asked(advance_prove(state, ok()));
    assert!(matches!(&action, Action::ReadBytes { path } if path == "proj/proofs/proof.bin"));
    let mut proof = vec![0u8, 0, 0, 1];
    proof.extend_from_slice(&[7u8; 32]);
    proof.extend_from_slice(&[9u8; 64]);
    let (action, state) = prove_asked(advance_prove(state, Event::Bytes(proof.clone())));
    match &action {
        Action::WriteJson { path, value, .. } => {
            assert_eq!(path, "proj/proofs/public_inputs.json");
            assert_eq!(value.get_u64("count"), Some(1));
            assert_eq!(value.get_u64("total_proof_size"), Some(100));
        }
        other => panic!("{other:?}"),
    }
    match advance_prove(state, Event::Done) {
        Step::Finished(artifacts) => {
            assert_eq!(artifacts.proof, proof);
            assert_eq!(artifacts.public_inputs, vec![[7u8; 32]]);
            assert_eq!(artifacts.proof_path, "proj/proofs/proof.bin");
        }
        other => panic!("{other:?}"),
    }
}

#[test]
fn ultrahonk_proof_falls_back_to_keccak() {
    let backend = UltraHonkBackend::new();
    for event in [
        Event::NotFound { message: "gone".to_string() },
        Event::Malformed { message: "EOF".to_string() },
        Event::Json(JsonValue::Null),
        Event::Json(JsonValue::object(vec![("oracle_hash".to_string(), JsonValue::unsigned(1))])),
    ] {
        let (_, state) = prove_asked(backend.prove("proj", &ultrahonk_artifacts(), "in"));
        let (_, state) = prove_asked(advance_prove(state, Event::Exists(true)));
        let (_, state) = prove_asked(advance_prove(state, Event::Done));
        let (_, state) = prove_asked(advance_prove(state, event));
        let (action, _) = prove_asked(advance_prove(state, ok()));
        assert_eq!(run_of(action).args[2], "keccak");
    }
}

#[test]
fn ultrahonk_proof_that_fails_the_check_is_not_read() {
    let backend = UltraHonkBackend::new();
    let (_, state) = prove_asked(backend.prove("proj", &ultrahonk_artifacts(), "in"));
    let (_, state) = prove_asked(advance_prove(state, Event::Exists(true)));
    let (_, state) = prove_asked(advance_prove(state, Event::Done));
    let (_, state) = prove_asked(advance_prove(state, Event::Json(JsonValue::Null)));
    let (_, state) = prove_asked(advance_prove(state, ok()));
    let (_, state) = prove_asked(advance_prove(state, ok()));
    let error = prove_stopped(advance_prove(state, failed("sumcheck failed")));
    assert!(matches!(
        error,
        StellarZkError::ProofGeneration(text) if text == "proof verification failed: sumcheck failed"
    ));
}

#[test]
fn risc0_build_with_a_guest_binary() {
    let profile = OptimizationProfile::development();
    let (action, state) = build_asked(Risc0Backend::new().build("proj", &config(), &profile));
    assert!(matches!(&action, Action::CreateDirAll { path } if path == "proj/target"));
    let (action, state) = build_asked(advance_build(state, Event::Done));
    let call = run_of(action);
    assert_eq!(call.program, "cargo");
    assert_eq!(call.args, strings(&["build", "--release", "--target", "riscv32im-risc0-zkvm-elf"]));
    assert_eq!(call.cwd.as_deref(), Some("proj/programs/guest"));
    let (action, state) = build_asked(advance_build(state, ok()));
    let built = "proj/programs/guest/target/riscv32im-risc0-zkvm-elf/release/guest";
    assert!(matches!(&action, Action::Exists { path } if path == built));
    let (action, state) = build_asked(advance_build(state, Event::Exists(true)));
    assert!(
        matches!(&action, Action::Copy { from, to } if from == built && to == "proj/target/guest.elf")
    );
    let (action, state) = build_asked(advance_build(state, Event::Done));
    let call = run_of(action);
    assert_eq!(call.args, strings(&["build", "--release"]));
    assert_eq!(call.cwd.as_deref(), Some("proj/programs/host"));
    let (action, state) = build_asked(advance_build(state, ok()));
    match &action {
        Action::WriteJson { path, value, pretty } => {
            assert_eq!(path, "proj/target/risc0_config.json");
            assert!(!*pretty);
            assert_eq!(value.get_str("guest_target"), Some("riscv32im-risc0-zkvm-elf"));
            assert_eq!(value.get_u64("segment_limit_po2"), Some(20));
            assert!(matches!(value.get("groth16_wrap"), Some(JsonValue::Bool(true))));
        }
        other => panic!("{other:?}"),
    }
    let (action, state) = build_asked(advance_build(state, Event::Done));
    let (action, state) = build_asked(through_pipeline(action, state));
    assert!(matches!(&action, Action::Exists { path } if path == "proj/target/risc0.vk"));
    // a key that is there is left alone
    match advance_build(state, Event::Exists(true)) {
        Step::Finished(artifacts) => {
            assert_eq!(artifacts.circuit_artifact, "proj/target/guest.elf");
            assert_eq!(
                artifacts.verifier_wasm,
                "proj/contracts/verifier/target/wasm32-unknown-unknown/debug/verifier.wasm"
            );
            assert_eq!(artifacts.proving_key, None);
            assert_eq!(artifacts.verification_key, "proj/target/risc0.vk");
        }
        other => panic!("{other:?}"),
    }
}

#[test]
fn risc0_build_without_a_guest_binary_and_without_a_key() {
    let profile = OptimizationProfile::development();
    let (_, state) = build_asked(Risc0Backend::new().build("proj", &config(), &profile));
    let (_, state) = build_asked(advance_build(state, Event::Done));
    let (_, state) = build_asked(advance_build(state, ok()));
    let (action, state) = build_asked(advance_build(state, Event::Exists(false)));
    match &action {
        Action::Warn { message } => assert_eq!(
            message,
            "guest ELF not found at proj/programs/guest/target/riscv32im-risc0-zkvm-elf/release/guest; writing placeholder"
        ),
        other => panic!("{other:?}"),
    }
    let (action, state) = build_asked(advance_build(state, Event::Done));
    match &action {
        Action::Write { path, content } => {
            assert_eq!(path, "proj/target/guest.elf");
            assert_eq!(content, b"[elf placeholder]");
        }
        other => panic!("{other:?}"),
    }
    let (action, state) = build_asked(advance_build(state, Event::Done));
    assert_eq!(run_of(action).cwd.as_deref(), Some("proj/programs/host"));
    let (_, state) = build_asked(advance_build(state, ok()));
    let (action, state) = build_asked(advance_build(state, Event::Done));
    let (_, state) = build_asked(through_pipeline(action, state));
    let (action, state) = build_asked(advance_build(state, Event::Exists(false)));
    match &action {
        Action::Write { path, content } => {
            assert_eq!(path, "proj/target/risc0.vk");
            assert_eq!(content, b"[risc0 universal vk]");
        }
        other => panic!("{other:?}"),
    }
    assert!(matches!(advance_build(state, Event::Done), Step::Finished(_)));
}

#[test]
fn risc0_build_failures() {
    let profile = OptimizationProfile::development();
    let (_, state) = build_asked(Risc0Backend::new().build("proj", &config(), &profile));
    let (_, state) = build_asked(advance_build(state, Event::Done));
    let error = build_stopped(advance_build(state, failed("no target")));
    assert!(matches!(
        error,
        StellarZkError::CircuitCompilation(text) if text == "RISC Zero guest build failed: no target"
    ));
    let (_, state) = build_asked(Risc0Backend::new().build("proj", &config(), &profile));
    let (_, state) = build_asked(advance_build(state, Event::Done));
    let error =
        build_stopped(advance_build(state, Event::NotFound { message: "no cargo".to_string() }));
    assert!(matches!(
        error,
        StellarZkError::CircuitCompilation(text)
            if text == "failed to run cargo for guest build: no cargo"
    ));
    let (_, state) = build_asked(Risc0Backend::new().build("proj", &config(), &profile));
    let (_, state) = build_asked(advance_build(state, Event::Done));
    let (_, state) = build_asked(advance_build(state, ok()));
    let (_, state) = build_asked(advance_build(state, Event::Exists(true)));
    let (_, state) = build_asked(advance_build(state, Event::Done));
    let error = build_stopped(advance_build(state, failed("E0001")));
    assert!(matches!(
        error,
        StellarZkError::CircuitCompilation(text) if text == "RISC Zero host build failed: E0001"
    ));
}

fn valid_seal() -> Vec<u8> {
    let mut seal = RISC0_SELECTOR.to_vec();
    seal.extend_from_slice(&[5u8; 256]);
    seal
}

fn risc0_to_image_id(seal: Vec<u8>, journal: Vec<u8>) -> ProveState {
    let (action, state) =
        prove_asked(Risc0Backend::new().prove("proj", &ultrahonk_artifacts(), "in.bin"));
    assert!(matches!(&action, Action::Exists { path } if path == "in.bin"));
    let (action, state) = prove_asked(advance_prove(state, Event::Exists(true)));
    assert!(matches!(&action, Action::CreateDirAll { path } if path == "proj/proofs"));
    let (action, state) = prove_asked(advance_prove(state, Event::Done));
    let host = "proj/programs/host/target/release/host";
    assert!(matches!(&action, Action::Exists { path } if path == host));
    let (action, state) = prove_asked(advance_prove(state, Event::Exists(true)));
    let call = run_of(action);
    assert_eq!(call.program, host);
    assert!(call.args.is_empty());
    assert_eq!(call.cwd.as_deref(), Some("proj"));
    assert_eq!(call.env, vec![("RISC0_INPUT".to_string(), "in.bin".to_string())]);
    let (action, state) = prove_asked(advance_prove(state, ok()));
    assert!(matches!(&action, Action::ReadBytes { path } if path == "proj/proofs/seal.bin"));
    let (action, state) = prove_asked(advance_prove(state, Event::Bytes(seal)));
    assert!(matches!(&action, Action::ReadBytes { path } if path == "proj/proofs/journal.bin"));
    let (action, state) = prove_asked(advance_prove(state, Event::Bytes(journal)));
    assert!(matches!(&action, Action::ReadText { path } if path == "proj/proofs/image_id.hex"));
    state
}

const IMAGE_ID: &str = "000102030405060708090a0b0c0d0e0f101112131415161718191A1B1C1D1E1F";

#[test]
fn risc0_proof() {
    let state = risc0_to_image_id(valid_seal(), b"abc".to_vec());
    let (action, state) =
        prove_asked(advance_prove(state, Event::Text(format!("  {IMAGE_ID}\n"))));
    match &action {
        Action::Write { path, content } => {
            assert_eq!(path, "proj/proofs/receipt.bin");
            assert_eq!(content, &valid_seal());
        }
        other => panic!("{other:?}"),
    }
    let (action, state) = prove_asked(advance_prove(state, Event::Done));
    let image_id: Vec<u8> = (0u8..32).collect();
    // SHA-256 of "abc"
    let digest = "ba7816bf8f01cfea414140de5dae2223b00361a396177a9cb410ff61f20015ad";
    match &action {
        Action::WriteJson { path, value, pretty } => {
            assert_eq!(path, "proj/proofs/public_inputs.json");
            assert!(*pretty);
            assert_eq!(value.get_u64("count"), Some(2));
            assert_eq!(value.get_u64("total_proof_size"), Some(260));
            let hexes = value.get_array("public_inputs_hex").unwrap();
            assert_eq!(hexes[0].as_str(), Some(IMAGE_ID.to_lowercase().as_str()));
            assert_eq!(hexes[1].as_str(), Some(digest));
        }
        other => panic!("{other:?}"),
    }
    match advance_prove(state, Event::Done) {
        Step::Finished(artifacts) => {
            assert_eq!(artifacts.proof, valid_seal());
            assert_eq!(artifacts.public_inputs.len(), 2);
            assert_eq!(artifacts.public_inputs[0].to_vec(), image_id);
            assert_eq!(artifacts.public_inputs[1][0], 0xba);
            assert_eq!(artifacts.public_inputs[1][31], 0xad);
            assert_eq!(artifacts.proof_path, "proj/proofs/receipt.bin");
        }
        other => panic!("{other:?}"),
    }
}

#[test]
fn risc0_proof_with_a_seal_that_is_not_valid_is_never_written() {
    let mut short = RISC0_SELECTOR.to_vec();
    short.extend_from_slice(&[0u8; 128]);
    let state = risc0_to_image_id(short, vec![]);
    let error = prove_stopped(advance_prove(state, Event::Text(IMAGE_ID.to_string())));
    assert!(matches!(
        error,
        StellarZkError::ProofGeneration(text)
            if text == "invalid seal: expected 260 bytes with correct selector, got 132 bytes"
    ));

    let state = risc0_to_image_id(vec![0u8; 260], vec![]);
    let error = prove_stopped(advance_prove(state, Event::Text(IMAGE_ID.to_string())));
    assert!(matches!(
        error,
        StellarZkError::ProofGeneration(text) if text.starts_with("invalid seal") && text.ends_with("got 260 bytes")
    ));
}

#[test]
fn risc0_proof_failures() {
    let state = risc0_to_image_id(valid_seal(), vec![]);
    let error = prove_stopped(advance_prove(state, Event::Text("0011".to_string())));
    assert!(matches!(
        error,
        StellarZkError::ProofGeneration(text) if text == "image_id must be 32 bytes, got 2"
    ));
    let state = risc0_to_image_id(valid_seal(), vec![]);
    let error = prove_stopped(advance_prove(state, Event::Text("xyz".to_string())));
    assert!(matches!(
        error,
        StellarZkError::ProofGeneration(text) if text == "invalid image_id hex: Odd number of digits"
    ));
    let state = risc0_to_image_id(valid_seal(), vec![]);
    let error = prove_stopped(advance_prove(state, Event::Text("zz".to_string())));
    assert!(matches!(
        error,
        StellarZkError::ProofGeneration(text)
            if text == "invalid image_id hex: Invalid character 'z' at position 0"
    ));
    let state = risc0_to_image_id(valid_seal(), vec![]);
    let error =
        prove_stopped(advance_prove(state, Event::NotFound { message: "gone".to_string() }));
    assert!(matches!(
        error,
        StellarZkError::ProofGeneration(text) if text == "failed to read image_id.hex: gone"
    ));

    let backend = Risc0Backend::new();
    let start = || prove_asked(backend.prove("proj", &ultrahonk_artifacts(), "in.bin")).1;
    let error = prove_stopped(advance_prove(start(), Event::Exists(false)));
    assert!(matches!(error, StellarZkError::InputNotFound(path) if path == "in.bin"));
    let (_, state) = prove_asked(advance_prove(start(), Event::Exists(true)));
    let (_, state) = prove_asked(advance_prove(state, Event::Done));
    let error = prove_stopped(advance_prove(state, Event::Exists(false)));
    assert!(matches!(
        error,
        StellarZkError::ProofGeneration(text) if text.starts_with("host binary not found")
    ));
    let (_, state) = prove_asked(advance_prove(start(), Event::Exists(true)));
    let (_, state) = prove_asked(advance_prove(state, Event::Done));
    let (_, state) = prove_asked(advance_prove(state, Event::Exists(true)));
    let error = prove_stopped(advance_prove(state, failed("panicked")));
    assert!(matches!(
        error,
        StellarZkError::ProofGeneration(text) if text == "host binary failed: panicked"
    ));
    let (_, state) = prove_asked(advance_prove(start(), Event::Exists(true)));
    let (_, state) = prove_asked(advance_prove(state, Event::Done));
    let (_, state) = prove_asked(advance_prove(state, Event::Exists(true)));
    let (_, state) = prove_asked(advance_prove(state, ok()));
    let error =
        prove_stopped(advance_prove(state, Event::Failed { message: "EIO".to_string() }));
    assert!(matches!(
        error,
        StellarZkError::ProofGeneration(text) if text == "failed to read seal.bin: EIO"
    ));
}

#[test]
fn note_on_public_inputs() {
    let info = public_inputs_info(&vec![[0xab; 32]], 7);
    assert_eq!(info.get_u64("count"), Some(1));
    assert_eq!(info.get_u64("total_proof_size"), Some(7));
    let hexes = info.get_array("public_inputs_hex").unwrap();
    assert_eq!(hexes.len(), 1);
    assert_eq!(hexes[0].as_str(), Some("ab".repeat(32).as_str()));
    let empty = public_inputs_info(&vec![], 0);
    assert!(empty.get_array("public_inputs_hex").unwrap().is_empty());
}
