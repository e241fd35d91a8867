//! The Groth16 backend: circuits compiled by `circom`, keys and proofs made by
//! `snarkjs`, proofs of 256 bytes on the wire.

pub mod build_steps;
pub mod circuit;
pub mod prove_steps;
pub mod prover;
pub mod serializer;

use crate::backend::{
    check_prerequisites_of, estimate_for, start_build, start_prove, BackendKind, BuildArtifacts, BuildStep, CostEstimate,
    PrerequisiteError, ProofArtifacts, ProveStep, VersionWarning, ZkBackend,
};
use crate::config::{BackendConfig, ProjectConfig};
use crate::error::StellarZkError;
use crate::profile::OptimizationProfile;
use crate::tools::report_outdated;
use crate::version::Version;
use vstd::prelude::*;

verus! {

/// The Groth16 backend. A proof is 256 bytes, `A ‖ B ‖ C`; each circuit needs a
/// trusted setup of its own. Outside tools: `circom`, `snarkjs`, `node`.
#[derive(Debug, Clone, Copy, Default)]
pub struct Groth16Backend;

impl Groth16Backend {
    /// The backend.
    pub fn new() -> (backend: Self)
        ensures
            backend.kind() == BackendKind::Groth16,
    {
        Groth16Backend
    }
}

impl ZkBackend for Groth16Backend {
    open spec fn kind(&self) -> BackendKind {
        BackendKind::Groth16
    }

    fn name(&self) -> (s: &'static str) {
        BackendKind::Groth16.as_str()
    }

    fn display_name(&self) -> (s: &'static str) {
        BackendKind::Groth16.title()
    }

    fn check_prerequisites(&self) -> (r: Result<(), Vec<PrerequisiteError>>) {
        check_prerequisites_of(BackendKind::Groth16)
    }

    fn minimum_versions(&self) -> (r: Vec<(&'static str, Version)>) {
        BackendKind::Groth16.minimums()
    }

    fn check_versions(&self, found: &Vec<Option<Version>>) -> (warnings: Vec<VersionWarning>) {
        let minimums = BackendKind::Groth16.minimums();
        report_outdated(&minimums, found)
    }

    fn init_project(&self, project_dir: &str, config: &ProjectConfig) -> (r: Result<
        (),
        StellarZkError,
    >) {
        Ok(())
    }

    fn build(&self, project_dir: &str, config: &BackendConfig, profile: &OptimizationProfile) -> (step:
        BuildStep) {
        start_build(BackendKind::Groth16, project_dir, config, profile)
    }

    fn prove(&self, project_dir: &str, build_artifacts: &BuildArtifacts, input_path: &str) -> (step:
        ProveStep) {
        start_prove(BackendKind::Groth16, project_dir, build_artifacts, input_path)
    }

    fn estimate_cost(
        &self,
        project_dir: &str,
        proof_artifacts: &ProofArtifacts,
        build_artifacts: &BuildArtifacts,
    ) -> (r: Result<CostEstimate, StellarZkError>) {
        Ok(estimate_for(BackendKind::Groth16, proof_artifacts))
    }
}

} // verus!
