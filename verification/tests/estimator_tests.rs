use stellar_zk::backend::CostEstimate;
use stellar_zk::estimator::{
    apply_artifact_size, apply_simulation, cpu_status, estimate_fee, format_bytes,
    format_estimate, format_number, simulation_note, static_estimate, wasm_status, LimitStatus,
};
use stellar_zk::stellar::SimulateResult;

#[test]
fn test_groth16_base_cost() {
    let est = static_estimate("groth16", 0);
    assert_eq!(est.cpu_instructions, 10_000_000);
}

#[test]
fn test_groth16_scaling_with_inputs() {
    let est0 = static_estimate("groth16", 0);
    let est5 = static_estimate("groth16", 5);
    assert_eq!(est5.cpu_instructions, est0.cpu_instructions + 5 * 500_000);
}

#[test]
fn test_groth16_warning_above_70_percent() {
    // 10M base + N * 0.5M > 70M needs N > 120
    let est = static_estimate("groth16", 130);
    assert!(est.warnings.iter().any(|w| w.contains("70%")));
}

#[test]
fn test_unknown_backend() {
    let est = static_estimate("plonky2", 0);
    assert_eq!(est.cpu_instructions, 0);
    assert!(est.warnings.iter().any(|w| w.contains("unknown backend")));
}

#[test]
fn test_format_estimate_contains_backend() {
    let est = static_estimate("groth16", 1);
    let report = format_estimate(&est, "groth16");
    assert!(report.contains("groth16"));
}

#[test]
fn unknown_backend_is_all_zero() {
    let est = static_estimate("", 7);
    assert_eq!(est.cpu_instructions, 0);
    assert_eq!(est.memory_bytes, 0);
    assert_eq!(est.wasm_size, 0);
    assert_eq!(est.ledger_reads, 0);
    assert_eq!(est.ledger_writes, 0);
    assert_eq!(est.estimated_fee_stroops, 0);
    assert_eq!(est.warnings, vec!["unknown backend".to_string()]);
}

#[test]
fn groth16_estimate_fields() {
    let est = static_estimate("groth16", 2);
    assert_eq!(est.cpu_instructions, 11_000_000);
    assert_eq!(est.memory_bytes, 500_000);
    assert_eq!(est.wasm_size, 45_000);
    assert_eq!(est.ledger_reads, 2);
    assert_eq!(est.ledger_writes, 2);
    assert_eq!(est.estimated_fee_stroops, 100 + 1100);
    assert!(est.warnings.is_empty());
}

#[test]
fn groth16_warns_of_many_inputs() {
    let est = static_estimate("groth16", 21);
    assert_eq!(est.warnings.len(), 1);
    assert!(est.warnings[0].contains("many public inputs"));
    let est = static_estimate("groth16", 20);
    assert!(est.warnings.is_empty());
}

#[test]
fn groth16_cpu_warning_starts_above_70_percent() {
    // 120 inputs make exactly 70M: not above
    let at = static_estimate("groth16", 120);
    assert_eq!(at.cpu_instructions, 70_000_000);
    assert!(!at.warnings.iter().any(|w| w.contains("70%")));
    let above = static_estimate("groth16", 121);
    assert_eq!(
        above.warnings[0],
        "CPU usage 70500000 is above 70% of the 100M limit"
    );
}

#[test]
fn ultrahonk_estimate_fields() {
    let est = static_estimate("ultrahonk", 10);
    assert_eq!(est.cpu_instructions, 37_000_000);
    assert_eq!(est.memory_bytes, 2_000_000);
    assert_eq!(est.wasm_size, 55_000);
    assert_eq!(est.ledger_reads, 2);
    assert_eq!(est.ledger_writes, 1);
    assert_eq!(est.estimated_fee_stroops, 3800);
    assert_eq!(est.warnings.len(), 1);
    assert!(est.warnings[0].contains("most CPU-intensive"));
}

#[test]
fn risc0_estimate_ignores_inputs() {
    let a = static_estimate("risc0", 0);
    let b = static_estimate("risc0", 1000);
    assert_eq!(a.cpu_instructions, 15_000_000);
    assert_eq!(b.cpu_instructions, 15_000_000);
    assert_eq!(a.memory_bytes, 600_000);
    assert_eq!(a.wasm_size, 48_000);
    assert_eq!(a.estimated_fee_stroops, 1600);
    assert!(a.warnings.is_empty());
}

#[test]
fn static_cpu_never_falls_with_more_inputs() {
    for backend in ["groth16", "ultrahonk", "risc0", "other"] {
        let mut last = 0u64;
        for n in [0u32, 1, 2, 20, 21, 120, 121, 1000, u32::MAX] {
            let cpu = static_estimate(backend, n).cpu_instructions;
            assert!(cpu >= last, "{backend} {n}");
            last = cpu;
        }
    }
}

#[test]
fn fee_is_base_plus_one_per_ten_thousand() {
    assert_eq!(estimate_fee(0), 100);
    assert_eq!(estimate_fee(9_999), 100);
    assert_eq!(estimate_fee(10_000), 101);
    assert_eq!(estimate_fee(10_000_000), 1_100);
    assert_eq!(estimate_fee(u64::MAX), 100 + u64::MAX / 10_000);
}

#[test]
fn artifact_size_overrides_the_size_only() {
    let est = static_estimate("groth16", 3);
    let refined = apply_artifact_size(est, Some(61_234));
    assert_eq!(refined.wasm_size, 61_234);
    assert_eq!(refined.cpu_instructions, 11_500_000);
    assert_eq!(refined.memory_bytes, 500_000);
    assert_eq!(refined.ledger_reads, 2);
    assert_eq!(refined.ledger_writes, 2);
    assert_eq!(refined.estimated_fee_stroops, 1_250);
    assert!(refined.warnings.is_empty());

    let untouched = apply_artifact_size(static_estimate("groth16", 3), None);
    assert_eq!(untouched.wasm_size, 45_000);
}

#[test]
fn simulation_overrides_the_counters_and_keeps_the_size() {
    let est = apply_artifact_size(static_estimate("ultrahonk", 1), Some(50_000));
    let sim = SimulateResult {
        cpu_instructions: 42,
        memory_bytes: 43,
        resource_fee_stroops: 44,
        ledger_reads: 5,
        ledger_writes: 6,
    };
    let refined = apply_simulation(est, Some(sim));
    assert_eq!(refined.cpu_instructions, 42);
    assert_eq!(refined.memory_bytes, 43);
    assert_eq!(refined.estimated_fee_stroops, 44);
    assert_eq!(refined.ledger_reads, 5);
    assert_eq!(refined.ledger_writes, 6);
    assert_eq!(refined.wasm_size, 50_000);
    assert_eq!(refined.warnings.len(), 1);

    let untouched = apply_simulation(static_estimate("ultrahonk", 1), None);
    assert_eq!(untouched.cpu_instructions, 35_200_000);
    assert!(simulation_note(true).is_none());
    assert!(simulation_note(false).is_some());
}

#[test]
fn size_status_boundaries() {
    assert_eq!(wasm_status(0), LimitStatus::Within);
    assert_eq!(wasm_status(49_151), LimitStatus::Within);
    assert_eq!(wasm_status(49_152), LimitStatus::Near);
    assert_eq!(wasm_status(65_536), LimitStatus::Near);
    assert_eq!(wasm_status(65_537), LimitStatus::Over);
    assert_eq!(LimitStatus::Within.label(), "OK");
    assert_eq!(LimitStatus::Near.label(), "WARN");
    assert_eq!(LimitStatus::Over.label(), "FAIL");
}

#[test]
fn cpu_status_boundaries() {
    assert_eq!(cpu_status(70_000_000), LimitStatus::Within);
    assert_eq!(cpu_status(70_000_001), LimitStatus::Near);
    assert_eq!(cpu_status(100_000_000), LimitStatus::Near);
    assert_eq!(cpu_status(100_000_001), LimitStatus::Over);
}

#[test]
fn numbers_are_grouped_by_thousands() {
    assert_eq!(format_number(0), "0");
    assert_eq!(format_number(999), "999");
    assert_eq!(format_number(1_000), "1,000");
    assert_eq!(format_number(1_002_003), "1,002,003");
    assert_eq!(format_number(10_000_000), "10,000,000");
    assert_eq!(format_number(u64::MAX), "18,446,744,073,709,551,615");
}

#[test]
fn bytes_are_written_in_their_unit() {
    assert_eq!(format_bytes(0), "0 B");
    assert_eq!(format_bytes(1023), "1023 B");
    assert_eq!(format_bytes(1024), "1.0 KB");
    assert_eq!(format_bytes(45_000), "43.9 KB");
    assert_eq!(format_bytes(500_000), "488.3 KB");
    assert_eq!(format_bytes(1_048_576), "1.0 MB");
    assert_eq!(format_bytes(2_000_000), "1.9 MB");
}

#[test]
fn report_layout() {
    let est = CostEstimate {
        cpu_instructions: 10_500_000,
        memory_bytes: 500_000,
        wasm_size: 45_000,
        ledger_reads: 2,
        ledger_writes: 2,
        estimated_fee_stroops: 1_150,
        warnings: vec!["first".to_string(), "second".to_string()],
    };
    let report = format_estimate(&est, "groth16");
    let expected = "\nCost Estimate: groth16\n\
============================================\n\
\n\
Resource                Estimated        Limit         Usage\n\
------------------------------------------------------------\n\
CPU Instructions        10,500,000       100,000,000   10.5%  [OK]\n\
Memory                  488.3 KB         40 MB         -\n\
WASM Size               43.9 KB          65,536        68.7%  [OK]\n\
Ledger Reads            2                40            -\n\
Ledger Writes           2                20            -\n\
\n\
Estimated Fee: 0.0001 XLM\n\
\n\
Warnings:\n  * first\n  * second\n";
    assert_eq!(report, expected);
}

#[test]
fn report_without_warnings_has_no_heading() {
    let est = static_estimate("risc0", 0);
    let report = format_estimate(&est, "risc0");
    assert!(!report.contains("Warnings"));
    assert!(report.contains("15,000,000"));
    assert!(report.ends_with("Estimated Fee: 0.0002 XLM\n"));
}
