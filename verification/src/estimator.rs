//! What a verification costs on chain, estimated in three tiers.
//!
//! The first tier is a closed formula for each backend: a base cost and a
//! cost for each public input. The second puts the measured size of the
//! built contract in place of the assumed one. The third puts the counters
//! of a simulated call in place of the computed ones. A tier changes the
//! fields that it measures and no others.

use crate::backend::{CostEstimate, CostModel};
use crate::stellar::SimulateResult;
use crate::text::{
    decimal_text, digit_char, no_texts, pad_right, padded, push_text, texts, u64_to_string,
};
use vstd::prelude::*;

verus! {

/// Most CPU instructions that one transaction may take.
pub open spec fn cpu_ceiling() -> u64 {
    100_000_000
}

/// Largest contract binary that the network accepts, in bytes.
pub open spec fn size_ceiling() -> u64 {
    65_536
}

/// The fee in stroops for a number of CPU instructions: a base of 100 and one
/// more for every 10,000 instructions.
pub open spec fn fee_of(cpu: u64) -> u64 {
    (100 + cpu / 10_000) as u64
}

/// CPU use is worth a warning once it is above 70% of the ceiling.
pub open spec fn cpu_is_high(cpu: u64) -> bool {
    cpu * 100 > 70 * cpu_ceiling()
}

/// The warning for high CPU use.
pub open spec fn cpu_warning(cpu: u64) -> Seq<char> {
    "CPU usage "@ + decimal_text(cpu as nat) + " is above 70% of the 100M limit"@
}

/// The warnings on CPU use: one where it is high, none else.
pub open spec fn cpu_warnings(cpu: u64) -> Seq<Seq<char>> {
    if cpu_is_high(cpu) {
        seq![cpu_warning(cpu)]
    } else {
        Seq::empty()
    }
}

/// CPU instructions of a Groth16 verification: four pairings, and a point
/// multiplication for each public input.
pub open spec fn groth16_cpu(inputs: u32) -> u64 {
    (10_000_000 + inputs * 500_000) as u64
}

/// CPU instructions of an UltraHonk verification.
pub open spec fn ultrahonk_cpu(inputs: u32) -> u64 {
    (35_000_000 + inputs * 200_000) as u64
}

/// CPU instructions of a RISC Zero verification: the inputs are always two.
pub open spec fn risc0_cpu() -> u64 {
    15_000_000
}

/// The estimate for Groth16.
pub open spec fn groth16_model(inputs: u32) -> CostModel {
    let cpu = groth16_cpu(inputs);
    CostModel {
        cpu_instructions: cpu,
        memory_bytes: 500_000,
        wasm_size: 45_000,
        ledger_reads: 2,
        ledger_writes: 2,
        estimated_fee_stroops: fee_of(cpu),
        warnings: if inputs > 20 {
            cpu_warnings(cpu).push(
                "many public inputs increase g1_mul cost — consider hashing inputs off-chain"@,
            )
        } else {
            cpu_warnings(cpu)
        },
    }
}

/// The estimate for UltraHonk.
pub open spec fn ultrahonk_model(inputs: u32) -> CostModel {
    let cpu = ultrahonk_cpu(inputs);
    CostModel {
        cpu_instructions: cpu,
        memory_bytes: 2_000_000,
        wasm_size: 55_000,
        ledger_reads: 2,
        ledger_writes: 1,
        estimated_fee_stroops: fee_of(cpu),
        warnings: cpu_warnings(cpu).push(
            "UltraHonk verification is the most CPU-intensive backend — monitor limits closely"@,
        ),
    }
}

/// The estimate for RISC Zero.
pub open spec fn risc0_model() -> CostModel {
    CostModel {
        cpu_instructions: risc0_cpu(),
        memory_bytes: 600_000,
        wasm_size: 48_000,
        ledger_reads: 2,
        ledger_writes: 2,
        estimated_fee_stroops: fee_of(risc0_cpu()),
        warnings: Seq::empty(),
    }
}

/// The estimate for a backend that is not known: nothing but a warning.
pub open spec fn unknown_model() -> CostModel {
    CostModel {
        cpu_instructions: 0,
        memory_bytes: 0,
        wasm_size: 0,
        ledger_reads: 0,
        ledger_writes: 0,
        estimated_fee_stroops: 0,
        warnings: seq!["unknown backend"@],
    }
}

/// The static estimate for a backend and a number of public inputs.
pub open spec fn static_model(backend: Seq<char>, inputs: u32) -> CostModel {
    if backend == "groth16"@ {
        groth16_model(inputs)
    } else if backend == "ultrahonk"@ {
        ultrahonk_model(inputs)
    } else if backend == "risc0"@ {
        risc0_model()
    } else {
        unknown_model()
    }
}

/// More public inputs never cost fewer CPU instructions, whatever the backend.
pub proof fn lemma_static_cpu_monotonic(backend: Seq<char>, fewer: u32, more: u32)
    requires
        fewer <= more,
    ensures
        static_model(backend, fewer).cpu_instructions <= static_model(
            backend,
            more,
        ).cpu_instructions,
{
}

/// The fee rises with the CPU instructions, by one stroop for every 10,000.
pub proof fn lemma_fee_is_linear(cpu: u64)
    ensures
        fee_of(cpu) == 100 + cpu / 10_000,
        cpu + 10_000 <= u64::MAX ==> fee_of((cpu + 10_000) as u64) == fee_of(cpu) + 1,
{
}

/// The fee in stroops for a number of CPU instructions.
pub fn estimate_fee(cpu_instructions: u64) -> (fee: u64)
    ensures
        fee == fee_of(cpu_instructions),
{
    100 + cpu_instructions / 10_000
}

/// The warnings on CPU use.
fn cpu_warning_list(cpu: u64) -> (warnings: Vec<String>)
    ensures
        texts(warnings@) == cpu_warnings(cpu),
{
    let mut warnings = no_texts();
    if cpu > 70_000_000 {
        let mut line = "CPU usage ".to_owned();
        line.append(u64_to_string(cpu).as_str());
        line.append(" is above 70% of the 100M limit");
        push_text(&mut warnings, line.as_str());
        assert(texts(warnings@) =~= cpu_warnings(cpu));
    }
    warnings
}

/// The static estimate for Groth16.
pub fn groth16_estimate(num_public_inputs: u32) -> (estimate: CostEstimate)
    ensures
        estimate@ == groth16_model(num_public_inputs),
{
    let cpu = 10_000_000u64 + (num_public_inputs as u64) * 500_000u64;
    let mut warnings = cpu_warning_list(cpu);
    if num_public_inputs > 20 {
        push_text(
            &mut warnings,
            "many public inputs increase g1_mul cost — consider hashing inputs off-chain",
        );
    }
    CostEstimate {
        cpu_instructions: cpu,
        memory_bytes: 500_000,
        wasm_size: 45_000,
        ledger_reads: 2,
        ledger_writes: 2,
        estimated_fee_stroops: estimate_fee(cpu),
        warnings,
    }
}

/// The static estimate for UltraHonk.
pub fn ultrahonk_estimate(num_public_inputs: u32) -> (estimate: CostEstimate)
    ensures
        estimate@ == ultrahonk_model(num_public_inputs),
{
    let cpu = 35_000_000u64 + (num_public_inputs as u64) * 200_000u64;
    let mut warnings = cpu_warning_list(cpu);
    push_text(
        &mut warnings,
        "UltraHonk verification is the most CPU-intensive backend — monitor limits closely",
    );
    CostEstimate {
        cpu_instructions: cpu,
        memory_bytes: 2_000_000,
        wasm_size: 55_000,
        ledger_reads: 2,
        ledger_writes: 1,
        estimated_fee_stroops: estimate_fee(cpu),
        warnings,
    }
}

/// The static estimate for RISC Zero.
pub fn risc0_estimate() -> (estimate: CostEstimate)
    ensures
        estimate@ == risc0_model(),
{
    let cpu = 15_000_000u64;
    CostEstimate {
        cpu_instructions: cpu,
        memory_bytes: 600_000,
        wasm_size: 48_000,
        ledger_reads: 2,
        ledger_writes: 2,
        estimated_fee_stroops: estimate_fee(cpu),
        warnings: no_texts(),
    }
}

/// The first tier: the static estimate for a backend and a number of public
/// inputs. A backend that is not known gets zeros and a warning.
pub fn static_estimate(backend: &str, num_public_inputs: u32) -> (estimate: CostEstimate)
    ensures
        estimate@ == static_model(backend@, num_public_inputs),
{
    if backend.eq("groth16") {
        groth16_estimate(num_public_inputs)
    } else if backend.eq("ultrahonk") {
        ultrahonk_estimate(num_public_inputs)
    } else if backend.eq("risc0") {
        risc0_estimate()
    } else {
        let mut warnings = no_texts();
        push_text(&mut warnings, "unknown backend");
        assert(texts(warnings@) =~= seq!["unknown backend"@]);
        CostEstimate {
            cpu_instructions: 0,
            memory_bytes: 0,
            wasm_size: 0,
            ledger_reads: 0,
            ledger_writes: 0,
            estimated_fee_stroops: 0,
            warnings,
        }
    }
}

/// The estimate with the size of the contract binary as it was measured;
/// the estimate as it is where nothing was measured.
pub open spec fn sized(estimate: CostModel, measured: Option<u64>) -> CostModel {
    match measured {
        Some(size) => CostModel { wasm_size: size, ..estimate },
        None => estimate,
    }
}

/// The estimate with the counters of a simulated call; the estimate as it
/// is where there was no simulation.
pub open spec fn simulated(estimate: CostModel, simulation: Option<SimulateResult>) -> CostModel {
    match simulation {
        Some(sim) => CostModel {
            cpu_instructions: sim.cpu_instructions,
            memory_bytes: sim.memory_bytes,
            ledger_reads: sim.ledger_reads,
            ledger_writes: sim.ledger_writes,
            estimated_fee_stroops: sim.resource_fee_stroops,
            ..estimate
        },
        None => estimate,
    }
}

/// The second tier: where the built contract was measured, its size takes
/// the place of the assumed one. Nothing else changes.
pub fn apply_artifact_size(estimate: CostEstimate, measured: Option<u64>) -> (refined: CostEstimate)
    ensures
        refined@ == sized(estimate@, measured),
{
    match measured {
        Some(size) => CostEstimate { wasm_size: size, ..estimate },
        None => estimate,
    }
}

/// The third tier: where a call was simulated, its counters take the place
/// of the computed ones. The size and the warnings stay.
pub fn apply_simulation(estimate: CostEstimate, simulation: Option<SimulateResult>) -> (refined:
    CostEstimate)
    ensures
        refined@ == simulated(estimate@, simulation),
{
    match simulation {
        Some(sim) => CostEstimate {
            cpu_instructions: sim.cpu_instructions,
            memory_bytes: sim.memory_bytes,
            ledger_reads: sim.ledger_reads,
            ledger_writes: sim.ledger_writes,
            estimated_fee_stroops: sim.resource_fee_stroops,
            ..estimate
        },
        None => estimate,
    }
}

/// The note for an estimate that no simulation refined.
pub fn simulation_note(available: bool) -> (note: Option<&'static str>)
    ensures
        match note {
            None => available,
            Some(text) => !available && text@
                == "no simulation available: the estimate stays as computed"@,
        },
{
    if available {
        None
    } else {
        Some("no simulation available: the estimate stays as computed")
    }
}

/// The second tier leaves every field but the size as it was, and the size
/// is the measured one exactly.
pub proof fn lemma_artifact_size_overrides(estimate: CostModel, size: u64)
    ensures
        sized(estimate, Some(size)).wasm_size == size,
        sized(estimate, Some(size)).cpu_instructions == estimate.cpu_instructions,
        sized(estimate, Some(size)).memory_bytes == estimate.memory_bytes,
        sized(estimate, Some(size)).ledger_reads == estimate.ledger_reads,
        sized(estimate, Some(size)).ledger_writes == estimate.ledger_writes,
        sized(estimate, Some(size)).estimated_fee_stroops == estimate.estimated_fee_stroops,
        sized(estimate, Some(size)).warnings == estimate.warnings,
        sized(estimate, None) == estimate,
{
}

/// A simulation never touches the size that the second tier measured, and a
/// missing simulation touches nothing.
pub proof fn lemma_simulation_keeps_size(estimate: CostModel, simulation: Option<SimulateResult>)
    ensures
        simulated(estimate, simulation).wasm_size == estimate.wasm_size,
        simulated(estimate, simulation).warnings == estimate.warnings,
        simulated(estimate, None) == estimate,
{
}

/// How a resource stands to its limit.
#[derive(Debug, Clone, Copy, PartialEq, Eq, Structural)]
pub enum LimitStatus {
    /// Well within the limit.
    Within,
    /// Near the limit.
    Near,
    /// Over the limit.
    Over,
}

/// The status of a contract binary of `size` bytes: within below 75% of the
/// ceiling, over above the ceiling, near in between.
pub open spec fn size_status(size: u64) -> LimitStatus {
    if size > size_ceiling() {
        LimitStatus::Over
    } else if size * 100 < 75 * size_ceiling() {
        LimitStatus::Within
    } else {
        LimitStatus::Near
    }
}

/// The status of `cpu` instructions: over above the ceiling, near above 70%
/// of it, within else.
pub open spec fn cpu_status_of(cpu: u64) -> LimitStatus {
    if cpu > cpu_ceiling() {
        LimitStatus::Over
    } else if cpu_is_high(cpu) {
        LimitStatus::Near
    } else {
        LimitStatus::Within
    }
}

impl LimitStatus {
    /// The word for the status in a report.
    pub open spec fn word(self) -> Seq<char> {
        match self {
            LimitStatus::Within => "OK"@,
            LimitStatus::Near => "WARN"@,
            LimitStatus::Over => "FAIL"@,
        }
    }

    /// The word for the status in a report.
    pub fn label(self) -> (s: &'static str)
        ensures
            s@ == self.word(),
    {
        match self {
            LimitStatus::Within => "OK",
            LimitStatus::Near => "WARN",
            LimitStatus::Over => "FAIL",
        }
    }
}

/// The status of a contract binary of `size` bytes.
pub fn wasm_status(size: u64) -> (status: LimitStatus)
    ensures
        status == size_status(size),
{
    if size > 65_536 {
        LimitStatus::Over
    } else if size < 49_152 {
        LimitStatus::Within
    } else {
        LimitStatus::Near
    }
}

/// The status of `cpu` instructions.
pub fn cpu_status(cpu: u64) -> (status: LimitStatus)
    ensures
        status == cpu_status_of(cpu),
{
    if cpu > 100_000_000 {
        LimitStatus::Over
    } else if cpu > 70_000_000 {
        LimitStatus::Near
    } else {
        LimitStatus::Within
    }
}

/// Three digits, with zeros in front where the number is small.
pub open spec fn three_digits(k: nat) -> Seq<char> {
    seq![digit_char(k / 100), digit_char(k / 10 % 10), digit_char(k % 10)]
}

/// A number with a comma between each group of three digits.
pub open spec fn grouped_text(n: nat) -> Seq<char>
    decreases n,
{
    if n < 1000 {
        decimal_text(n)
    } else {
        grouped_text(n / 1000).push(',') + three_digits(n % 1000)
    }
}

/// `value · scale / unit`, rounded to the nearest whole, a half upwards.
pub open spec fn rounded_ratio(value: nat, scale: nat, unit: nat) -> nat {
    (value * scale + unit / 2) / unit
}

/// A number of tenths with one decimal place.
pub open spec fn tenths_text(tenths: nat) -> Seq<char> {
    decimal_text(tenths / 10).push('.').push(digit_char(tenths % 10))
}

/// A number of bytes in the largest unit that it fills, with one decimal
/// place from the kilobyte on.
pub open spec fn bytes_text(n: u64) -> Seq<char> {
    if n >= 1_048_576 {
        tenths_text(rounded_ratio(n as nat, 10, 1_048_576)) + " MB"@
    } else if n >= 1024 {
        tenths_text(rounded_ratio(n as nat, 10, 1024)) + " KB"@
    } else {
        decimal_text(n as nat) + " B"@
    }
}

/// `value` as a percentage of `ceiling`, with one decimal place.
pub open spec fn percent_text(value: u64, ceiling: u64) -> Seq<char> {
    tenths_text(rounded_ratio(value as nat, 1000, ceiling as nat))
}

/// A fee in stroops as XLM with four decimal places; ten million stroops
/// make one XLM.
pub open spec fn xlm_text(fee: u64) -> Seq<char> {
    let units = rounded_ratio(fee as nat, 1, 1000);
    decimal_text(units / 10_000).push('.').push(digit_char(units / 1000 % 10)).push(
        digit_char(units / 100 % 10),
    ).push(digit_char(units / 10 % 10)).push(digit_char(units % 10))
}

/// The usage column for a resource with a limit.
pub open spec fn usage_text(value: u64, ceiling: u64, status: LimitStatus) -> Seq<char> {
    percent_text(value, ceiling) + "%  ["@ + status.word() + "]"@
}

/// One row of the table: what is measured, the estimate, the limit, the usage.
pub open spec fn row_text(label: Seq<char>, value: Seq<char>, limit: Seq<char>, usage: Seq<char>) ->
    Seq<char> {
    label + padded(value, 16) + " "@ + padded(limit, 13) + " "@ + usage + "\n"@
}

/// The first `upto` warnings, one on a line.
pub open spec fn warning_lines(warnings: Seq<Seq<char>>, upto: nat) -> Seq<char>
    decreases upto,
{
    if upto == 0 {
        Seq::empty()
    } else {
        warning_lines(warnings, (upto - 1) as nat) + "  * "@ + warnings[upto - 1] + "\n"@
    }
}

/// The warnings of an estimate under their heading; nothing where there are
/// none.
pub open spec fn warnings_text(warnings: Seq<Seq<char>>) -> Seq<char> {
    if warnings.len() == 0 {
        Seq::empty()
    } else {
        "\nWarnings:\n"@ + warning_lines(warnings, warnings.len())
    }
}

/// The report on an estimate for a reader.
pub open spec fn report_text(estimate: CostModel, backend: Seq<char>) -> Seq<char> {
    "\nCost Estimate: "@ + backend + "\n============================================\n\n"@
        + "Resource                Estimated        Limit         Usage\n"@
        + "------------------------------------------------------------\n"@ + row_text(
        "CPU Instructions        "@,
        grouped_text(estimate.cpu_instructions as nat),
        "100,000,000"@,
        usage_text(
            estimate.cpu_instructions,
            cpu_ceiling(),
            cpu_status_of(estimate.cpu_instructions),
        ),
    ) + row_text(
        "Memory                  "@,
        bytes_text(estimate.memory_bytes),
        "40 MB"@,
        "-"@,
    ) + row_text(
        "WASM Size               "@,
        bytes_text(estimate.wasm_size),
        "65,536"@,
        usage_text(estimate.wasm_size, size_ceiling(), size_status(estimate.wasm_size)),
    ) + row_text(
        "Ledger Reads            "@,
        decimal_text(estimate.ledger_reads as nat),
        "40"@,
        "-"@,
    ) + row_text(
        "Ledger Writes           "@,
        decimal_text(estimate.ledger_writes as nat),
        "20"@,
        "-"@,
    ) + "\nEstimated Fee: "@ + xlm_text(estimate.estimated_fee_stroops) + " XLM\n"@
        + warnings_text(estimate.warnings)
}

/// The character of a decimal digit.
fn digit(d: u64) -> (c: char)
    requires
        d < 10,
    ensures
        c == digit_char(d as nat),
{
    (48u8 + d as u8) as char
}

/// Writes a number with a comma between each group of three digits.
pub fn format_number(n: u64) -> (s: String)
    ensures
        s@ == grouped_text(n as nat),
    decreases n,
{
    if n < 1000 {
        u64_to_string(n)
    } else {
        let mut s = format_number(n / 1000);
        let k = n % 1000;
        s.push(',');
        let ghost before = s@;
        s.push(digit(k / 100));
        s.push(digit(k / 10 % 10));
        s.push(digit(k % 10));
        assert(s@ =~= before + three_digits(k as nat));
        s
    }
}

/// `value · scale / unit`, rounded to the nearest whole, a half upwards.
fn ratio(value: u64, scale: u64, unit: u64) -> (r: u64)
    requires
        0 < scale <= unit,
    ensures
        r == rounded_ratio(value as nat, scale as nat, unit as nat),
{
    assert(value * scale <= value * unit <= 0xffff_ffff_ffff_ffff * 0xffff_ffff_ffff_ffff)
        by (nonlinear_arith)
        requires
            0 < scale <= unit,
            value <= 0xffff_ffff_ffff_ffff,
            unit <= 0xffff_ffff_ffff_ffff,
    ;
    let wide = (value as u128) * (scale as u128) + (unit as u128) / 2;
    let q = wide / (unit as u128);
    assert(q <= value) by (nonlinear_arith)
        requires
            q == wide / (unit as u128),
            wide <= value * unit + unit / 2,
            unit > 0,
    ;
    q as u64
}

/// Writes a number of tenths with one decimal place.
fn format_tenths(tenths: u64) -> (s: String)
    ensures
        s@ == tenths_text(tenths as nat),
{
    let mut s = u64_to_string(tenths / 10);
    s.push('.');
    s.push(digit(tenths % 10));
    s
}

/// Writes a number of bytes in the largest unit that it fills.
pub fn format_bytes(n: u64) -> (s: String)
    ensures
        s@ == bytes_text(n),
{
    if n >= 1_048_576 {
        let mut s = format_tenths(ratio(n, 10, 1_048_576));
        s.append(" MB");
        s
    } else if n >= 1024 {
        let mut s = format_tenths(ratio(n, 10, 1024));
        s.append(" KB");
        s
    } else {
        let mut s = u64_to_string(n);
        s.append(" B");
        s
    }
}

/// Writes a fee in stroops as XLM with four decimal places.
fn format_xlm(fee: u64) -> (s: String)
    ensures
        s@ == xlm_text(fee),
{
    let units = ratio(fee, 1, 1000);
    let mut s = u64_to_string(units / 10_000);
    s.push('.');
    s.push(digit(units / 1000 % 10));
    s.push(digit(units / 100 % 10));
    s.push(digit(units / 10 % 10));
    s.push(digit(units % 10));
    s
}

/// Writes the usage column for a resource with a limit.
fn format_usage(value: u64, ceiling: u64, status: LimitStatus) -> (s: String)
    requires
        ceiling >= 1000,
    ensures
        s@ == usage_text(value, ceiling, status),
{
    let mut s = format_tenths(ratio(value, 1000, ceiling));
    s.append("%  [");
    s.append(status.label());
    s.append("]");
    s
}

/// Writes one row of the table.
fn format_row(label: &str, value: &str, limit: &str, usage: &str) -> (s: String)
    ensures
        s@ == row_text(label@, value@, limit@, usage@),
{
    let mut s = label.to_owned();
    s.append(pad_right(value, 16).as_str());
    s.append(" ");
    s.append(pad_right(limit, 13).as_str());
    s.append(" ");
    s.append(usage);
    s.append("\n");
    s
}

/// Writes the warnings of an estimate under their heading.
fn format_warnings(warnings: &Vec<String>) -> (s: String)
    ensures
        s@ == warnings_text(texts(warnings@)),
{
    if warnings.len() == 0 {
        return String::new();
    }
    let ghost all = texts(warnings@);
    let mut lines = String::new();
    let mut i: usize = 0;
    while i < warnings.len()
        invariant
            i <= warnings@.len(),
            all == texts(warnings@),
            lines@ == warning_lines(all, i as nat),
        decreases warnings@.len() - i,
    {
        lines.append("  * ");
        lines.append(warnings[i].as_str());
        lines.append("\n");
        i += 1;
    }
    let mut s = "\nWarnings:\n".to_owned();
    s.append(lines.as_str());
    s
}

/// Writes the report on an estimate: each resource with its estimate, its
/// limit and how it stands to the limit, then the fee, then the warnings.
pub fn format_estimate(estimate: &CostEstimate, backend: &str) -> (report: String)
    ensures
        report@ == report_text(estimate@, backend@),
{
    let cpu = estimate.cpu_instructions;
    let size = estimate.wasm_size;
    let mut report = "\nCost Estimate: ".to_owned();
    report.append(backend);
    report.append("\n============================================\n\n");
    report.append("Resource                Estimated        Limit         Usage\n");
    report.append("------------------------------------------------------------\n");
    report.append(
        format_row(
            "CPU Instructions        ",
            format_number(cpu).as_str(),
            "100,000,000",
            format_usage(cpu, 100_000_000, cpu_status(cpu)).as_str(),
        ).as_str(),
    );
    report.append(
        format_row(
            "Memory                  ",
            format_bytes(estimate.memory_bytes).as_str(),
            "40 MB",
            "-",
        ).as_str(),
    );
    report.append(
        format_row(
            "WASM Size               ",
            format_bytes(size).as_str(),
            "65,536",
            format_usage(size, 65_536, wasm_status(size)).as_str(),
        ).as_str(),
    );
    report.append(
        format_row(
            "Ledger Reads            ",
            u64_to_string(estimate.ledger_reads as u64).as_str(),
            "40",
            "-",
        ).as_str(),
    );
    report.append(
        format_row(
            "Ledger Writes           ",
            u64_to_string(estimate.ledger_writes as u64).as_str(),
            "20",
            "-",
        ).as_str(),
    );
    report.append("\nEstimated Fee: ");
    report.append(format_xlm(estimate.estimated_fee_stroops).as_str());
    report.append(" XLM\n");
    report.append(format_warnings(&estimate.warnings).as_str());
    report
}

} // verus!
