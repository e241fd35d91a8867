//! The settings of a project, as its configuration files hold them.

use vstd::prelude::*;

verus! {

/// Settings of the Groth16 backend. A build asks that they are there and
/// reads none of them.
#[derive(Debug)]
pub struct Groth16Config {}

/// Settings of the UltraHonk backend.
#[derive(Debug)]
pub struct UltraHonkConfig {
    /// The hash that the prover and the verifier use as their oracle.
    pub oracle_hash: String,
}

/// Settings of the RISC Zero backend.
#[derive(Debug)]
pub struct Risc0Config {
    /// The target that the guest program is compiled for.
    pub guest_target: String,
    /// The size limit of a segment, as a power of two.
    pub segment_limit_po2: u32,
    /// Whether the proof is wrapped as a Groth16 seal.
    pub groth16_wrap: bool,
}

/// Settings of the backends; those of the backend that a project uses are
/// there.
#[derive(Debug)]
pub struct BackendConfig {
    pub groth16: Option<Groth16Config>,
    pub ultrahonk: Option<UltraHonkConfig>,
    pub risc0: Option<Risc0Config>,
}

/// Settings of the verifier contract.
#[derive(Debug)]
pub struct ContractConfig {
    pub name: String,
}

/// Settings of a project.
#[derive(Debug)]
pub struct ProjectConfig {
    /// Name of the backend: `groth16`, `ultrahonk` or `risc0`.
    pub backend: String,
    /// Name of the optimization profile.
    pub profile: String,
    pub contract: ContractConfig,
}

} // verus!
