use stellar_zk::profile::{OptimizationProfile, WasmOptLevel};

#[test]
fn test_from_name_valid_profiles() {
    assert!(OptimizationProfile::from_name("development").is_some());
    assert!(OptimizationProfile::from_name("testnet").is_some());
    assert!(OptimizationProfile::from_name("stellar-production").is_some());
}

#[test]
fn test_from_name_invalid() {
    assert!(OptimizationProfile::from_name("invalid").is_none());
    assert!(OptimizationProfile::from_name("").is_none());
}

#[test]
fn test_development_no_enforce_limits() {
    let dev = OptimizationProfile::development();
    assert!(!dev.enforce_size_limit);
    assert!(!dev.enforce_cpu_limit);
    assert!(dev.overflow_checks);
}

#[test]
fn test_production_enforces_all() {
    let prod = OptimizationProfile::stellar_production();
    assert!(prod.enforce_size_limit);
    assert!(prod.enforce_cpu_limit);
    assert!(prod.overflow_checks);
    assert!(prod.lto);
    assert!(prod.strip_symbols);
}

#[test]
fn profiles_by_name_are_the_canonical_ones() {
    let dev = OptimizationProfile::from_name("development").unwrap();
    assert_eq!(dev.name, "development");
    assert_eq!(dev.cargo_profile, "dev");
    assert_eq!(dev.opt_level, "0");
    assert_eq!(dev.codegen_units, 256);
    assert_eq!(dev.wasm_opt_level, WasmOptLevel::Off);
    assert!(!dev.lto);

    let testnet = OptimizationProfile::from_name("testnet").unwrap();
    assert_eq!(testnet.name, "testnet");
    assert_eq!(testnet.cargo_profile, "release");
    assert_eq!(testnet.opt_level, "s");
    assert_eq!(testnet.codegen_units, 1);
    assert_eq!(testnet.wasm_opt_level, WasmOptLevel::Os);
    assert!(testnet.lto);
    assert!(!testnet.strip_symbols);
    assert!(testnet.enforce_size_limit);
    assert!(!testnet.enforce_cpu_limit);

    let prod = OptimizationProfile::from_name("stellar-production").unwrap();
    assert_eq!(prod.name, "stellar-production");
    assert_eq!(prod.opt_level, "z");
    assert_eq!(prod.wasm_opt_level, WasmOptLevel::Oz);
}

#[test]
fn every_profile_keeps_overflow_checks() {
    for name in ["development", "testnet", "stellar-production"] {
        assert!(OptimizationProfile::from_name(name).unwrap().overflow_checks);
    }
}

#[test]
fn limits_of_the_network() {
    assert_eq!(OptimizationProfile::MAX_WASM_SIZE, 65_536);
    assert_eq!(OptimizationProfile::MAX_CPU_INSTRUCTIONS, 100_000_000);
}

#[test]
fn a_copy_of_a_profile_is_the_profile() {
    let prod = OptimizationProfile::stellar_production();
    let copy = prod.duplicate();
    assert_eq!(copy.name, prod.name);
    assert_eq!(copy.cargo_profile, prod.cargo_profile);
    assert_eq!(copy.wasm_opt_level, prod.wasm_opt_level);
    assert_eq!(copy.enforce_size_limit, prod.enforce_size_limit);
}
