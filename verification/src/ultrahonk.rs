//! The UltraHonk backend: Noir circuits compiled by `nargo`, keys and proofs
//! made by Barretenberg's `bb`.

pub mod build_steps;
pub mod nargo;
pub mod proof_convert;
pub mod prove_steps;
pub mod serializer;

use crate::backend::{
    check_prerequisites_of, estimate_for, start_build, start_prove, BackendKind, BuildArtifacts, BuildStep, CostEstimate,
    PrerequisiteError, ProofArtifacts, ProveStep, VersionWarning, ZkBackend,
};
use crate::config::{BackendConfig, ProjectConfig};
use crate::error::StellarZkError;
use crate::profile::OptimizationProfile;
use crate::tools::report_outdated;
use crate::version::Version;
use vstd::prelude::*;

verus! {

/// The UltraHonk backend. The setup is universal: no circuit needs one of its
/// own. Outside tools: `nargo`, `bb`.
#[derive(Debug, Clone, Copy, Default)]
pub struct UltraHonkBackend;

impl UltraHonkBackend {
    /// The backend.
    pub fn new() -> (backend: Self)
        ensures
            backend.kind() == BackendKind::UltraHonk,
    {
        UltraHonkBackend
    }
}

impl ZkBackend for UltraHonkBackend {
    open spec fn kind(&self) -> BackendKind {
        BackendKind::UltraHonk
    }

    fn name(&self) -> (s: &'static str) {
        BackendKind::UltraHonk.as_str()
    }

    fn display_name(&self) -> (s: &'static str) {
        BackendKind::UltraHonk.title()
    }

    fn check_prerequisites(&self) -> (r: Result<(), Vec<PrerequisiteError>>) {
        check_prerequisites_of(BackendKind::UltraHonk)
    }

    fn minimum_versions(&self) -> (r: Vec<(&'static str, Version)>) {
        BackendKind::UltraHonk.minimums()
    }

    fn check_versions(&self, found: &Vec<Option<Version>>) -> (warnings: Vec<VersionWarning>) {
        let minimums = BackendKind::UltraHonk.minimums();
        report_outdated(&minimums, found)
    }

    fn init_project(&self, project_dir: &str, config: &ProjectConfig) -> (r: Result<
        (),
        StellarZkError,
    >) {
        Ok(())
    }

    fn build(&self, project_dir: &str, config: &BackendConfig, profile: &OptimizationProfile) -> (step:
        BuildStep) {
        start_build(BackendKind::UltraHonk, project_dir, config, profile)
    }

    fn prove(&self, project_dir: &str, build_artifacts: &BuildArtifacts, input_path: &str) -> (step:
        ProveStep) {
        start_prove(BackendKind::UltraHonk, project_dir, build_artifacts, input_path)
    }

    fn estimate_cost(
        &self,
        project_dir: &str,
        proof_artifacts: &ProofArtifacts,
        build_artifacts: &BuildArtifacts,
    ) -> (r: Result<CostEstimate, StellarZkError>) {
        Ok(estimate_for(BackendKind::UltraHonk, proof_artifacts))
    }
}

} // verus!
