//! What can go wrong between a project on disk and a verifier on chain.

use crate::text::{concat, decimal_text, u64_to_string};
use vstd::prelude::*;

verus! {

/// The errors of the toolkit.
///
/// A path is kept as text, and the fault of an outside party (the file system,
/// a JSON parser) as the text that it gave.
#[derive(Debug)]
pub enum StellarZkError {
    /// A configuration file could not be read.
    ConfigNotFound { path: String, source: String },
    /// A configuration file holds no valid JSON.
    ConfigParse { path: String, source: String },
    /// The backend is none of `groth16`, `ultrahonk`, `risc0`.
    UnknownBackend(String),
    /// The profile is none of `development`, `testnet`, `stellar-production`.
    UnknownProfile(String),
    /// A required outside tool is not installed.
    MissingTool { name: String, install: String },
    /// The circuit or program did not compile; the text is the compiler's.
    CircuitCompilation(String),
    /// The verifier contract did not build; the text is the builder's.
    ContractBuild(String),
    /// Optimizing or stripping the contract binary failed.
    WasmOptFailed(String),
    /// The contract binary is larger than the network accepts.
    WasmTooLarge { size: u64, max: u64, path: String },
    /// Making the witness or the proof, or encoding it, failed.
    ProofGeneration(String),
    /// The input file for the proof does not exist.
    InputNotFound(String),
    /// The `stellar` command line tool reported an error.
    StellarCli(String),
    /// Deploying the contract failed.
    DeployFailed(String),
    /// A template could not be rendered.
    TemplateRender(String),
    /// The project directory exists already.
    ProjectExists(String),
    /// The directory holds no project.
    NotAProject,
    /// The file system reported an error.
    Io(String),
    /// Anything else.
    Other(String),
}

/// The mathematical value of a [`StellarZkError`].
pub enum Failure {
    ConfigNotFound { path: Seq<char>, source: Seq<char> },
    ConfigParse { path: Seq<char>, source: Seq<char> },
    UnknownBackend(Seq<char>),
    UnknownProfile(Seq<char>),
    MissingTool { name: Seq<char>, install: Seq<char> },
    CircuitCompilation(Seq<char>),
    ContractBuild(Seq<char>),
    WasmOptFailed(Seq<char>),
    WasmTooLarge { size: u64, max: u64, path: Seq<char> },
    ProofGeneration(Seq<char>),
    InputNotFound(Seq<char>),
    StellarCli(Seq<char>),
    DeployFailed(Seq<char>),
    TemplateRender(Seq<char>),
    ProjectExists(Seq<char>),
    NotAProject,
    Io(Seq<char>),
    Other(Seq<char>),
}

impl View for StellarZkError {
    type V = Failure;

    open spec fn view(&self) -> Failure {
        match self {
            StellarZkError::ConfigNotFound { path, source } => Failure::ConfigNotFound {
                path: path@,
                source: source@,
            },
            StellarZkError::ConfigParse { path, source } => Failure::ConfigParse {
                path: path@,
                source: source@,
            },
            StellarZkError::UnknownBackend(s) => Failure::UnknownBackend(s@),
            StellarZkError::UnknownProfile(s) => Failure::UnknownProfile(s@),
            StellarZkError::MissingTool { name, install } => Failure::MissingTool {
                name: name@,
                install: install@,
            },
            StellarZkError::CircuitCompilation(s) => Failure::CircuitCompilation(s@),
            StellarZkError::ContractBuild(s) => Failure::ContractBuild(s@),
            StellarZkError::WasmOptFailed(s) => Failure::WasmOptFailed(s@),
            StellarZkError::WasmTooLarge { size, max, path } => Failure::WasmTooLarge {
                size: *size,
                max: *max,
                path: path@,
            },
            StellarZkError::ProofGeneration(s) => Failure::ProofGeneration(s@),
            StellarZkError::InputNotFound(s) => Failure::InputNotFound(s@),
            StellarZkError::StellarCli(s) => Failure::StellarCli(s@),
            StellarZkError::DeployFailed(s) => Failure::DeployFailed(s@),
            StellarZkError::TemplateRender(s) => Failure::TemplateRender(s@),
            StellarZkError::ProjectExists(s) => Failure::ProjectExists(s@),
            StellarZkError::NotAProject => Failure::NotAProject,
            StellarZkError::Io(s) => Failure::Io(s@),
            StellarZkError::Other(s) => Failure::Other(s@),
        }
    }
}

impl Failure {
    /// The sentence that tells a user of the failure.
    pub open spec fn text(self) -> Seq<char> {
        match self {
            Failure::ConfigNotFound { path, source } => "config file not found at "@ + path,
            Failure::ConfigParse { path, source } => "failed to parse config at "@ + path,
            Failure::UnknownBackend(s) => "unknown backend: "@ + s
                + " (supported: groth16, ultrahonk, risc0)"@,
            Failure::UnknownProfile(s) => "unknown profile: "@ + s
                + " (supported: development, testnet, stellar-production)"@,
            Failure::MissingTool { name, install } => "required tool '"@ + name
                + "' not found — install: "@ + install,
            Failure::CircuitCompilation(s) => "circuit compilation failed: "@ + s,
            Failure::ContractBuild(s) => "contract build failed: "@ + s,
            Failure::WasmOptFailed(s) => "WASM optimization failed: "@ + s,
            Failure::WasmTooLarge { size, max, path } => "WASM too large: "@ + decimal_text(
                size as nat,
            ) + " bytes (max "@ + decimal_text(max as nat) + ") at "@ + path,
            Failure::ProofGeneration(s) => "proof generation failed: "@ + s,
            Failure::InputNotFound(s) => "input file not found: "@ + s,
            Failure::StellarCli(s) => "stellar CLI error: "@ + s,
            Failure::DeployFailed(s) => "deployment failed: "@ + s,
            Failure::TemplateRender(s) => "template rendering failed: "@ + s,
            Failure::ProjectExists(s) => "project directory already exists: "@ + s,
            Failure::NotAProject => "not a stellar-zk project (missing stellar-zk.config.json)"@,
            Failure::Io(s) => s,
            Failure::Other(s) => s,
        }
    }
}

impl StellarZkError {
    /// The sentence that tells a user of the error.
    pub fn to_string(&self) -> (s: String)
        ensures
            s@ == self@.text(),
    {
        match self {
            StellarZkError::ConfigNotFound { path, source } => concat(
                "config file not found at ",
                path.as_str(),
            ),
            StellarZkError::ConfigParse { path, source } => concat(
                "failed to parse config at ",
                path.as_str(),
            ),
            StellarZkError::UnknownBackend(name) => {
                let mut s = concat("unknown backend: ", name.as_str());
                s.append(" (supported: groth16, ultrahonk, risc0)");
                s
            },
            StellarZkError::UnknownProfile(name) => {
                let mut s = concat("unknown profile: ", name.as_str());
                s.append(" (supported: development, testnet, stellar-production)");
                s
            },
            StellarZkError::MissingTool { name, install } => {
                let mut s = concat("required tool '", name.as_str());
                s.append("' not found — install: ");
                s.append(install.as_str());
                s
            },
            StellarZkError::CircuitCompilation(text) => concat(
                "circuit compilation failed: ",
                text.as_str(),
            ),
            StellarZkError::ContractBuild(text) => concat("contract build failed: ", text.as_str()),
            StellarZkError::WasmOptFailed(text) => concat(
                "WASM optimization failed: ",
                text.as_str(),
            ),
            StellarZkError::WasmTooLarge { size, max, path } => {
                let mut s = concat("WASM too large: ", u64_to_string(*size).as_str());
                s.append(" bytes (max ");
                s.append(u64_to_string(*max).as_str());
                s.append(") at ");
                s.append(path.as_str());
                s
            },
            StellarZkError::ProofGeneration(text) => concat(
                "proof generation failed: ",
                text.as_str(),
            ),
            StellarZkError::InputNotFound(path) => concat("input file not found: ", path.as_str()),
            StellarZkError::StellarCli(text) => concat("stellar CLI error: ", text.as_str()),
            StellarZkError::DeployFailed(text) => concat("deployment failed: ", text.as_str()),
            StellarZkError::TemplateRender(text) => concat(
                "template rendering failed: ",
                text.as_str(),
            ),
            StellarZkError::ProjectExists(path) => concat(
                "project directory already exists: ",
                path.as_str(),
            ),
            StellarZkError::NotAProject => "not a stellar-zk project (missing stellar-zk.config.json)".to_owned(),
            StellarZkError::Io(text) => text.clone(),
            StellarZkError::Other(text) => text.clone(),
        }
    }
}

} // verus!
