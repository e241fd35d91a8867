//! Optimization profiles: how hard the verifier contract is optimized and
//! which network limits the build enforces.

use vstd::prelude::*;

verus! {

/// Optimization of the contract binary after it is compiled.
#[derive(Debug, Clone, Copy, PartialEq, Eq, Structural)]
pub enum WasmOptLevel {
    /// No pass (development).
    Off,
    /// Optimize for size, `-Os` (testnet).
    Os,
    /// Optimize for size above all, `-Oz` (production).
    Oz,
}

impl WasmOptLevel {
    /// How hard a level optimizes: 0, 1 or 2.
    pub open spec fn rank(self) -> nat {
        match self {
            WasmOptLevel::Off => 0,
            WasmOptLevel::Os => 1,
            WasmOptLevel::Oz => 2,
        }
    }
}

/// A build profile for verifier contracts.
#[derive(Debug, Clone)]
pub struct OptimizationProfile {
    pub name: String,
    /// Cargo profile: `dev`, `release` or a custom one.
    pub cargo_profile: String,
    /// Optimization level of the compiler: `0`, `s` or `z`.
    pub opt_level: String,
    /// Link-time optimization.
    pub lto: bool,
    /// Strip symbols from the contract binary.
    pub strip_symbols: bool,
    /// Number of code generation units.
    pub codegen_units: u32,
    /// Optimization of the contract binary.
    pub wasm_opt_level: WasmOptLevel,
    /// Keep overflow checks. On in every profile: proofs are checked with
    /// this arithmetic.
    pub overflow_checks: bool,
    /// Fail the build where the contract binary is over the size limit.
    pub enforce_size_limit: bool,
    /// Enforce the limit on CPU instructions.
    pub enforce_cpu_limit: bool,
}

/// The mathematical value of an [`OptimizationProfile`].
pub struct ProfileModel {
    pub name: Seq<char>,
    pub cargo_profile: Seq<char>,
    pub opt_level: Seq<char>,
    pub lto: bool,
    pub strip_symbols: bool,
    pub codegen_units: u32,
    pub wasm_opt_level: WasmOptLevel,
    pub overflow_checks: bool,
    pub enforce_size_limit: bool,
    pub enforce_cpu_limit: bool,
}

impl View for OptimizationProfile {
    type V = ProfileModel;

    open spec fn view(&self) -> ProfileModel {
        ProfileModel {
            name: self.name@,
            cargo_profile: self.cargo_profile@,
            opt_level: self.opt_level@,
            lto: self.lto,
            strip_symbols: self.strip_symbols,
            codegen_units: self.codegen_units,
            wasm_opt_level: self.wasm_opt_level,
            overflow_checks: self.overflow_checks,
            enforce_size_limit: self.enforce_size_limit,
            enforce_cpu_limit: self.enforce_cpu_limit,
        }
    }
}

/// The profile for work on one's own machine: quick builds, no limits.
pub open spec fn development_profile() -> ProfileModel {
    ProfileModel {
        name: "development"@,
        cargo_profile: "dev"@,
        opt_level: "0"@,
        lto: false,
        strip_symbols: false,
        codegen_units: 256,
        wasm_opt_level: WasmOptLevel::Off,
        overflow_checks: true,
        enforce_size_limit: false,
        enforce_cpu_limit: false,
    }
}

/// The profile for the test network: optimized for size, the size limit enforced.
pub open spec fn testnet_profile() -> ProfileModel {
    ProfileModel {
        name: "testnet"@,
        cargo_profile: "release"@,
        opt_level: "s"@,
        lto: true,
        strip_symbols: false,
        codegen_units: 1,
        wasm_opt_level: WasmOptLevel::Os,
        overflow_checks: true,
        enforce_size_limit: true,
        enforce_cpu_limit: false,
    }
}

/// The profile for the main network: optimized to the utmost, every limit enforced.
pub open spec fn production_profile() -> ProfileModel {
    ProfileModel {
        name: "stellar-production"@,
        cargo_profile: "release"@,
        opt_level: "z"@,
        lto: true,
        strip_symbols: true,
        codegen_units: 1,
        wasm_opt_level: WasmOptLevel::Oz,
        overflow_checks: true,
        enforce_size_limit: true,
        enforce_cpu_limit: true,
    }
}

/// The profile that a name stands for.
pub open spec fn named_profile(name: Seq<char>) -> Option<ProfileModel> {
    if name == "development"@ {
        Some(development_profile())
    } else if name == "testnet"@ {
        Some(testnet_profile())
    } else if name == "stellar-production"@ {
        Some(production_profile())
    } else {
        None
    }
}

impl ProfileModel {
    /// A profile is at least as strict as another when it switches on each
    /// optimization and each limit that the other switches on.
    pub open spec fn at_least_as_strict_as(self, other: ProfileModel) -> bool {
        &&& other.lto ==> self.lto
        &&& other.strip_symbols ==> self.strip_symbols
        &&& other.enforce_size_limit ==> self.enforce_size_limit
        &&& other.enforce_cpu_limit ==> self.enforce_cpu_limit
        &&& other.wasm_opt_level.rank() <= self.wasm_opt_level.rank()
        &&& self.codegen_units <= other.codegen_units
    }
}

/// From development over testnet to production the profiles grow stricter,
/// and none of them gives up overflow checks.
pub proof fn lemma_profiles_grow_stricter()
    ensures
        testnet_profile().at_least_as_strict_as(development_profile()),
        production_profile().at_least_as_strict_as(testnet_profile()),
        production_profile().at_least_as_strict_as(development_profile()),
        forall|name: Seq<char>| #[trigger]
            named_profile(name) matches Some(profile) ==> profile.overflow_checks,
{
}

impl OptimizationProfile {
    /// Largest contract binary that the network accepts, in bytes.
    pub const MAX_WASM_SIZE: u64 = 65_536;

    /// Most CPU instructions that one transaction may take.
    pub const MAX_CPU_INSTRUCTIONS: u64 = 100_000_000;

    /// Quick builds without optimization, for local testing only.
    pub fn development() -> (profile: Self)
        ensures
            profile@ == development_profile(),
    {
        OptimizationProfile {
            name: "development".to_owned(),
            cargo_profile: "dev".to_owned(),
            opt_level: "0".to_owned(),
            lto: false,
            strip_symbols: false,
            codegen_units: 256,
            wasm_opt_level: WasmOptLevel::Off,
            overflow_checks: true,
            enforce_size_limit: false,
            enforce_cpu_limit: false,
        }
    }

    /// Moderate optimization, for the test network.
    pub fn testnet() -> (profile: Self)
        ensures
            profile@ == testnet_profile(),
    {
        OptimizationProfile {
            name: "testnet".to_owned(),
            cargo_profile: "release".to_owned(),
            opt_level: "s".to_owned(),
            lto: true,
            strip_symbols: false,
            codegen_units: 1,
            wasm_opt_level: WasmOptLevel::Os,
            overflow_checks: true,
            enforce_size_limit: true,
            enforce_cpu_limit: false,
        }
    }

    /// The utmost optimization, for the main network. Every limit is enforced.
    pub fn stellar_production() -> (profile: Self)
        ensures
            profile@ == production_profile(),
    {
        OptimizationProfile {
            name: "stellar-production".to_owned(),
            cargo_profile: "release".to_owned(),
            opt_level: "z".to_owned(),
            lto: true,
            strip_symbols: true,
            codegen_units: 1,
            wasm_opt_level: WasmOptLevel::Oz,
            overflow_checks: true,
            enforce_size_limit: true,
            enforce_cpu_limit: true,
        }
    }

    /// A copy of the profile.
    pub fn duplicate(&self) -> (copy: Self)
        ensures
            copy@ == self@,
    {
        OptimizationProfile {
            name: self.name.clone(),
            cargo_profile: self.cargo_profile.clone(),
            opt_level: self.opt_level.clone(),
            lto: self.lto,
            strip_symbols: self.strip_symbols,
            codegen_units: self.codegen_units,
            wasm_opt_level: self.wasm_opt_level,
            overflow_checks: self.overflow_checks,
            enforce_size_limit: self.enforce_size_limit,
            enforce_cpu_limit: self.enforce_cpu_limit,
        }
    }

    /// Resolves a profile by its name.
    pub fn from_name(name: &str) -> (r: Option<Self>)
        ensures
            match r {
                Some(profile) => named_profile(name@) == Some(profile@),
                None => named_profile(name@) is None,
            },
    {
        if name.eq("development") {
            Some(Self::development())
        } else if name.eq("testnet") {
            Some(Self::testnet())
        } else if name.eq("stellar-production") {
            Some(Self::stellar_production())
        } else {
            None
        }
    }
}

} // verus!
