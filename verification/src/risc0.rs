//! The RISC Zero backend: a guest program proved inside the zkVM, the proof
//! wrapped as a Groth16 seal of 260 bytes.

pub mod build_steps;
pub mod guest;
pub mod prove_steps;
pub mod prover;
pub mod serializer;

use crate::backend::{
    check_prerequisites_of, estimate_for, start_build, start_prove, BackendKind, BuildArtifacts, BuildStep, CostEstimate,
    PrerequisiteError, ProofArtifacts, ProveStep, VersionWarning, ZkBackend,
};
use crate::config::{BackendConfig, ProjectConfig};
use crate::error::StellarZkError;
use crate::profile::OptimizationProfile;
use crate::tools::report_outdated;
use crate::version::Version;
use vstd::prelude::*;

verus! {

/// The RISC Zero backend. Any Rust program can be proved; the proof is wrapped as
/// a seal of 260 bytes, and one verification key serves every program.
/// Outside tools: `cargo-risczero`, `docker`.
#[derive(Debug, Clone, Copy, Default)]
pub struct Risc0Backend;

impl Risc0Backend {
    /// The backend.
    pub fn new() -> (backend: Self)
        ensures
            backend.kind() == BackendKind::Risc0,
    {
        Risc0Backend
    }
}

impl ZkBackend for Risc0Backend {
    open spec fn kind(&self) -> BackendKind {
        BackendKind::Risc0
    }

    fn name(&self) -> (s: &'static str) {
        BackendKind::Risc0.as_str()
    }

    fn display_name(&self) -> (s: &'static str) {
        BackendKind::Risc0.title()
    }

    fn check_prerequisites(&self) -> (r: Result<(), Vec<PrerequisiteError>>) {
        check_prerequisites_of(BackendKind::Risc0)
    }

    fn minimum_versions(&self) -> (r: Vec<(&'static str, Version)>) {
        BackendKind::Risc0.minimums()
    }

    fn check_versions(&self, found: &Vec<Option<Version>>) -> (warnings: Vec<VersionWarning>) {
        let minimums = BackendKind::Risc0.minimums();
        report_outdated(&minimums, found)
    }

    fn init_project(&self, project_dir: &str, config: &ProjectConfig) -> (r: Result<
        (),
        StellarZkError,
    >) {
        Ok(())
    }

    fn build(&self, project_dir: &str, config: &BackendConfig, profile: &OptimizationProfile) -> (step:
        BuildStep) {
        start_build(BackendKind::Risc0, project_dir, config, profile)
    }

    fn prove(&self, project_dir: &str, build_artifacts: &BuildArtifacts, input_path: &str) -> (step:
        ProveStep) {
        start_prove(BackendKind::Risc0, project_dir, build_artifacts, input_path)
    }

    fn estimate_cost(
        &self,
        project_dir: &str,
        proof_artifacts: &ProofArtifacts,
        build_artifacts: &BuildArtifacts,
    ) -> (r: Result<CostEstimate, StellarZkError>) {
        Ok(estimate_for(BackendKind::Risc0, proof_artifacts))
    }
}

} // verus!
