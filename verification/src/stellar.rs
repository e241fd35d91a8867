//! The `stellar` command line tool: how it is called to deploy a contract, to
//! invoke it and to simulate a call, and how its answers are read.

use crate::error::{Failure, StellarZkError};
use crate::json::{JsonModel, JsonValue};
use crate::process::{
    out_of_turn, tool_call, unexpected, Event, EventModel, ToolCall, ToolCallModel,
};
use crate::text::{collect, concat, push_text, texts, trim, trimmed};
use crate::tools::on_path;
use vstd::prelude::*;

verus! {

/// The `stellar` command line tool.
#[derive(Debug)]
pub struct StellarCli {
    binary: String,
}

/// The counters of a simulated call.
#[derive(Debug, Clone, Copy, PartialEq, Eq, Structural)]
pub struct SimulateResult {
    pub cpu_instructions: u64,
    pub memory_bytes: u64,
    pub resource_fee_stroops: u64,
    pub ledger_reads: u32,
    pub ledger_writes: u32,
}

/// The texts that a list of pairs of string slices holds.
pub open spec fn pair_texts(pairs: Seq<(&str, &str)>) -> Seq<(Seq<char>, Seq<char>)> {
    Seq::new(pairs.len(), |i: int| (pairs[i].0@, pairs[i].1@))
}

/// The first `upto` named arguments on a command line: for each its name
/// behind two dashes, then its value.
pub open spec fn named_args(pairs: Seq<(Seq<char>, Seq<char>)>, upto: nat) -> Seq<Seq<char>>
    decreases upto,
{
    if upto == 0 {
        Seq::empty()
    } else {
        named_args(pairs, (upto - 1) as nat).push("--"@ + pairs[upto - 1].0).push(pairs[upto - 1].1)
    }
}

/// The arguments that deploy a contract. Arguments for the constructor of
/// the contract follow a `--`, so that the contract is set up as it is
/// deployed.
pub open spec fn deploy_args(
    wasm: Seq<char>,
    network: Seq<char>,
    source: Seq<char>,
    constructor_args: Seq<(Seq<char>, Seq<char>)>,
) -> Seq<Seq<char>> {
    let base = seq![
        "contract"@,
        "deploy"@,
        "--wasm"@,
        wasm,
        "--network"@,
        network,
        "--source"@,
        source,
    ];
    if constructor_args.len() == 0 {
        base
    } else {
        base.push("--"@) + named_args(constructor_args, constructor_args.len())
    }
}

/// The arguments that invoke a function of a contract.
pub open spec fn invoke_args(
    contract_id: Seq<char>,
    function: Seq<char>,
    args: Seq<(Seq<char>, Seq<char>)>,
    network: Seq<char>,
    source: Seq<char>,
) -> Seq<Seq<char>> {
    seq![
        "contract"@,
        "invoke"@,
        "--id"@,
        contract_id,
        "--network"@,
        network,
        "--source"@,
        source,
        "--"@,
        function,
    ] + named_args(args, args.len())
}

/// The arguments that simulate a call of a function of a contract.
pub open spec fn simulate_args(
    contract_id: Seq<char>,
    function: Seq<char>,
    args: Seq<(Seq<char>, Seq<char>)>,
    network: Seq<char>,
) -> Seq<Seq<char>> {
    seq![
        "contract"@,
        "invoke"@,
        "--id"@,
        contract_id,
        "--network"@,
        network,
        "--sim-only"@,
        "--"@,
        function,
    ] + named_args(args, args.len())
}

/// How a run of `stellar` ended: what it printed, without the white space
/// around it, or the failure. What the tool wrote as errors is handed on as
/// it is.
pub open spec fn stellar_outcome(event: EventModel, deploying: bool) -> Result<Seq<char>, Failure> {
    match event {
        EventModel::Exited { success, stdout, stderr } => if success {
            Ok(trimmed(stdout))
        } else if deploying {
            Err(Failure::DeployFailed(stderr))
        } else {
            Err(Failure::StellarCli(stderr))
        },
        EventModel::NotFound { message } => Err(Failure::Io(message)),
        EventModel::Failed { message } => Err(Failure::Io(message)),
        _ => Err(Failure::Other(out_of_turn())),
    }
}

/// The 32 low bits of a number.
pub open spec fn low_32(n: u64) -> u32 {
    (n % 0x1_0000_0000) as u32
}

/// A counter of a simulation: the number under `key`, and zero where there
/// is none.
pub open spec fn counter(doc: Option<JsonModel>, key: Seq<char>) -> u64 {
    match doc {
        Some(d) => match d.member_unsigned(key) {
            Some(n) => n,
            None => 0,
        },
        None => 0,
    }
}

/// The counters that a simulation reports. What it does not report is zero.
pub open spec fn simulation_of(doc: Option<JsonModel>) -> SimulateResult {
    SimulateResult {
        cpu_instructions: counter(doc, "cpu_insns"@),
        memory_bytes: counter(doc, "mem_bytes"@),
        resource_fee_stroops: counter(doc, "resource_fee"@),
        ledger_reads: low_32(counter(doc, "read_bytes"@)),
        ledger_writes: low_32(counter(doc, "write_bytes"@)),
    }
}

/// Appends named arguments to a command line.
fn push_named(line: &mut Vec<String>, args: &[(&str, &str)])
    ensures
        texts(final(line)@) == texts(old(line)@) + named_args(pair_texts(args@), args@.len()),
{
    let ghost start = texts(line@);
    let ghost pairs = pair_texts(args@);
    let mut i: usize = 0;
    assert(texts(line@) =~= start + named_args(pairs, 0));
    while i < args.len()
        invariant
            i <= args@.len(),
            pairs == pair_texts(args@),
            texts(line@) == start + named_args(pairs, i as nat),
        decreases args@.len() - i,
    {
        let flag = concat("--", args[i].0);
        push_text(line, flag.as_str());
        push_text(line, args[i].1);
        i += 1;
        assert(texts(line@) =~= start + named_args(pairs, i as nat));
    }
}

/// A counter of a simulation.
fn read_counter(doc: Option<&JsonValue>, key: &str) -> (n: u64)
    ensures
        n == counter(
            match doc {
                Some(d) => Some(d@),
                None => None,
            },
            key@,
        ),
{
    match doc {
        Some(d) => match d.get_u64(key) {
            Some(n) => n,
            None => 0,
        },
        None => 0,
    }
}

/// Reads the counters that a simulation reports from what it printed as
/// JSON; `None` stands for a text that is no JSON.
pub fn read_simulation(doc: Option<&JsonValue>) -> (result: SimulateResult)
    ensures
        result == simulation_of(
            match doc {
                Some(d) => Some(d@),
                None => None,
            },
        ),
{
    let reads = read_counter(doc, "read_bytes");
    let writes = read_counter(doc, "write_bytes");
    SimulateResult {
        cpu_instructions: read_counter(doc, "cpu_insns"),
        memory_bytes: read_counter(doc, "mem_bytes"),
        resource_fee_stroops: read_counter(doc, "resource_fee"),
        ledger_reads: (reads % 0x1_0000_0000) as u32,
        ledger_writes: (writes % 0x1_0000_0000) as u32,
    }
}

/// Reads how a run of `stellar` ended.
pub fn read_outcome(event: Event, deploying: bool) -> (r: Result<String, StellarZkError>)
    ensures
        match r {
            Ok(text) => stellar_outcome(event@, deploying) == Ok::<Seq<char>, Failure>(text@),
            Err(error) => stellar_outcome(event@, deploying) == Err::<Seq<char>, Failure>(error@),
        },
{
    match event {
        Event::Exited { success, stdout, stderr } => if success {
            Ok(trim(stdout.as_str()).to_owned())
        } else if deploying {
            Err(StellarZkError::DeployFailed(stderr))
        } else {
            Err(StellarZkError::StellarCli(stderr))
        },
        Event::NotFound { message } => Err(StellarZkError::Io(message)),
        Event::Failed { message } => Err(StellarZkError::Io(message)),
        _ => Err(unexpected()),
    }
}

impl StellarCli {
    /// The name of the program.
    pub closed spec fn program(&self) -> Seq<char> {
        self.binary@
    }

    /// The tool, where it is installed.
    pub fn new() -> (r: Result<Self, StellarZkError>)
        ensures
            match r {
                Ok(cli) => cli.program() == "stellar"@,
                Err(error) => error@ == (Failure::MissingTool {
                    name: "stellar"@,
                    install: "https://developers.stellar.org/docs/tools/cli"@,
                }),
            },
    {
        if on_path("stellar") {
            Ok(StellarCli { binary: "stellar".to_owned() })
        } else {
            Err(
                StellarZkError::MissingTool {
                    name: "stellar".to_owned(),
                    install: "https://developers.stellar.org/docs/tools/cli".to_owned(),
                },
            )
        }
    }

    /// The run that deploys a contract binary to a network.
    pub fn deploy(
        &self,
        wasm_path: &str,
        network: &str,
        source: &str,
        constructor_args: &[(&str, &str)],
    ) -> (call: ToolCall)
        ensures
            call@ == (ToolCallModel {
                program: self.program(),
                args: deploy_args(wasm_path@, network@, source@, pair_texts(constructor_args@)),
                cwd: None,
                env: Seq::empty(),
            }),
    {
        let mut line = collect(
            [
                "contract",
                "deploy",
                "--wasm",
                wasm_path,
                "--network",
                network,
                "--source",
                source,
            ].as_slice(),
        );
        let ghost base = texts(line@);
        assert(base =~= seq![
            "contract"@,
            "deploy"@,
            "--wasm"@,
            wasm_path@,
            "--network"@,
            network@,
            "--source"@,
            source@,
        ]);
        if constructor_args.len() > 0 {
            push_text(&mut line, "--");
            push_named(&mut line, constructor_args);
        }
        tool_call(self.binary.as_str(), line)
    }

    /// The run that invokes a function of a contract on a network.
    pub fn invoke(
        &self,
        contract_id: &str,
        function: &str,
        args: &[(&str, &str)],
        network: &str,
        source: &str,
    ) -> (call: ToolCall)
        ensures
            call@ == (ToolCallModel {
                program: self.program(),
                args: invoke_args(contract_id@, function@, pair_texts(args@), network@, source@),
                cwd: None,
                env: Seq::empty(),
            }),
    {
        let mut line = collect(
            [
                "contract",
                "invoke",
                "--id",
                contract_id,
                "--network",
                network,
                "--source",
                source,
                "--",
                function,
            ].as_slice(),
        );
        assert(texts(line@) =~= seq![
            "contract"@,
            "invoke"@,
            "--id"@,
            contract_id@,
            "--network"@,
            network@,
            "--source"@,
            source@,
            "--"@,
            function@,
        ]);
        push_named(&mut line, args);
        tool_call(self.binary.as_str(), line)
    }

    /// The run that simulates a call of a function of a contract, to learn
    /// what the call costs.
    pub fn simulate(&self, contract_id: &str, function: &str, args: &[(&str, &str)], network: &str) -> (call:
        ToolCall)
        ensures
            call@ == (ToolCallModel {
                program: self.program(),
                args: simulate_args(contract_id@, function@, pair_texts(args@), network@),
                cwd: None,
                env: Seq::empty(),
            }),
    {
        let mut line = collect(
            [
                "contract",
                "invoke",
                "--id",
                contract_id,
                "--network",
                network,
                "--sim-only",
                "--",
                function,
            ].as_slice(),
        );
        assert(texts(line@) =~= seq![
            "contract"@,
            "invoke"@,
            "--id"@,
            contract_id@,
            "--network"@,
            network@,
            "--sim-only"@,
            "--"@,
            function@,
        ]);
        push_named(&mut line, args);
        tool_call(self.binary.as_str(), line)
    }
}

} // verus!
