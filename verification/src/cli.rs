//! What a command line can choose: a backend, a profile, a network.

use crate::backend::{BackendKind, ZkBackend};
use crate::error::{Failure, StellarZkError};
use crate::groth16::Groth16Backend;
use crate::risc0::Risc0Backend;
use crate::ultrahonk::UltraHonkBackend;
use vstd::prelude::*;

verus! {

/// The backend of a project.
#[derive(Debug, Clone, Copy, PartialEq, Eq, Structural)]
pub enum BackendChoice {
    Groth16,
    Ultrahonk,
    Risc0,
}

/// The optimization profile of a build.
#[derive(Debug, Clone, Copy, PartialEq, Eq, Structural)]
pub enum ProfileChoice {
    Development,
    Testnet,
    StellarProduction,
}

/// The network to deploy to and to call.
#[derive(Debug, Clone, Copy, PartialEq, Eq, Structural)]
pub enum NetworkChoice {
    Local,
    Testnet,
    Mainnet,
}

impl BackendChoice {
    /// The name of the backend.
    pub open spec fn name(self) -> Seq<char> {
        match self {
            BackendChoice::Groth16 => "groth16"@,
            BackendChoice::Ultrahonk => "ultrahonk"@,
            BackendChoice::Risc0 => "risc0"@,
        }
    }

    /// The backend that is chosen.
    pub open spec fn kind(self) -> BackendKind {
        match self {
            BackendChoice::Groth16 => BackendKind::Groth16,
            BackendChoice::Ultrahonk => BackendKind::UltraHonk,
            BackendChoice::Risc0 => BackendKind::Risc0,
        }
    }

    /// The name of the backend.
    pub fn as_str(&self) -> (s: &'static str)
        ensures
            s@ == self.name(),
            s@ == self.kind().name(),
    {
        match self {
            BackendChoice::Groth16 => "groth16",
            BackendChoice::Ultrahonk => "ultrahonk",
            BackendChoice::Risc0 => "risc0",
        }
    }
}

impl ProfileChoice {
    /// The name of the profile.
    pub open spec fn name(self) -> Seq<char> {
        match self {
            ProfileChoice::Development => "development"@,
            ProfileChoice::Testnet => "testnet"@,
            ProfileChoice::StellarProduction => "stellar-production"@,
        }
    }

    /// The name of the profile.
    pub fn as_str(&self) -> (s: &'static str)
        ensures
            s@ == self.name(),
            crate::profile::named_profile(s@) is Some,
    {
        match self {
            ProfileChoice::Development => "development",
            ProfileChoice::Testnet => "testnet",
            ProfileChoice::StellarProduction => "stellar-production",
        }
    }
}

impl NetworkChoice {
    /// The name of the network.
    pub open spec fn name(self) -> Seq<char> {
        match self {
            NetworkChoice::Local => "local"@,
            NetworkChoice::Testnet => "testnet"@,
            NetworkChoice::Mainnet => "mainnet"@,
        }
    }

    /// The name of the network.
    pub fn as_str(&self) -> (s: &'static str)
        ensures
            s@ == self.name(),
    {
        match self {
            NetworkChoice::Local => "local",
            NetworkChoice::Testnet => "testnet",
            NetworkChoice::Mainnet => "mainnet",
        }
    }
}

/// The level of detail that a count of `-v` flags asks of the log.
pub fn log_filter(verbose: u8) -> (filter: &'static str)
    ensures
        filter@ == (if verbose == 0 {
            "warn"@
        } else if verbose == 1 {
            "info"@
        } else if verbose == 2 {
            "debug"@
        } else {
            "trace"@
        }),
{
    if verbose == 0 {
        "warn"
    } else if verbose == 1 {
        "info"
    } else if verbose == 2 {
        "debug"
    } else {
        "trace"
    }
}

/// The backend that a name stands for. A name that stands for none is an
/// error that carries the name.
pub fn create_backend(name: &str) -> (r: Result<Box<dyn ZkBackend>, StellarZkError>)
    ensures
        match r {
            Ok(backend) => backend.kind().name() == name@,
            Err(error) => error@ == Failure::UnknownBackend(name@) && forall|kind: BackendKind| #[trigger]
                kind.name() != name@,
        },
{
    match BackendKind::from_name(name) {
        Some(BackendKind::Groth16) => Ok(Box::new(Groth16Backend::new())),
        Some(BackendKind::UltraHonk) => Ok(Box::new(UltraHonkBackend::new())),
        Some(BackendKind::Risc0) => Ok(Box::new(Risc0Backend::new())),
        None => Err(StellarZkError::UnknownBackend(name.to_owned())),
    }
}

} // verus!
