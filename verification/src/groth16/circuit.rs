//! The circuit compiler, `circom`: how it is called and where it leaves its
//! output.

use crate::path::{join, joined};
use crate::process::{tool_call, Blame, Telling, TellingModel, ToolCall, ToolCallModel};
use crate::text::{collect, concat, texts};
use vstd::prelude::*;

verus! {

/// The run of `circom` that compiles a circuit to constraints, a witness
/// generator and symbols, all left in `output_dir`.
pub open spec fn circom_call(circuit_path: Seq<char>, output_dir: Seq<char>) -> ToolCallModel {
    ToolCallModel {
        program: "circom"@,
        args: seq![circuit_path, "--r1cs"@, "--wasm"@, "--sym"@, "-o"@, output_dir],
        cwd: None,
        env: Seq::empty(),
    }
}

/// How the failures of `circom` are told: what it wrote as errors is the
/// diagnostic, as it is.
pub open spec fn circom_telling() -> TellingModel {
    TellingModel {
        blame: Blame::Compilation,
        failed: Seq::empty(),
        unstarted: Seq::empty(),
        tool: "circom"@,
        install: "npm install -g circom"@,
    }
}

/// Where `circom` leaves the witness generator of a circuit:
/// `<output_dir>/<name>_js/<name>.wasm`.
pub open spec fn witness_wasm_of(output_dir: Seq<char>, circuit_name: Seq<char>) -> Seq<char> {
    joined(joined(output_dir, circuit_name + "_js"@), circuit_name + ".wasm"@)
}

/// Where `circom` leaves the constraints of a circuit: `<output_dir>/<name>.r1cs`.
pub open spec fn r1cs_of(output_dir: Seq<char>, circuit_name: Seq<char>) -> Seq<char> {
    joined(output_dir, circuit_name + ".r1cs"@)
}

/// The run of `circom` that compiles the circuit at `circuit_path`.
pub fn compile_circom(circuit_path: &str, output_dir: &str) -> (call: ToolCall)
    ensures
        call@ == circom_call(circuit_path@, output_dir@),
{
    let args = collect([circuit_path, "--r1cs", "--wasm", "--sym", "-o", output_dir].as_slice());
    assert(texts(args@) =~= circom_call(circuit_path@, output_dir@).args);
    tool_call("circom", args)
}

/// How the failures of `circom` are told.
pub fn compile_circom_telling() -> (telling: Telling<'static>)
    ensures
        telling@ == circom_telling(),
{
    proof {
        reveal_strlit("");
        assert(""@ =~= Seq::<char>::empty());
    }
    Telling {
        blame: Blame::Compilation,
        failed: "",
        unstarted: "",
        tool: "circom",
        install: "npm install -g circom",
    }
}

/// The path of the witness generator that `circom` made for a circuit.
pub fn witness_wasm_path(output_dir: &str, circuit_name: &str) -> (path: String)
    ensures
        path@ == witness_wasm_of(output_dir@, circuit_name@),
{
    let dir = join(output_dir, concat(circuit_name, "_js").as_str());
    join(dir.as_str(), concat(circuit_name, ".wasm").as_str())
}

/// The path of the constraints that `circom` made for a circuit.
pub fn r1cs_path(output_dir: &str, circuit_name: &str) -> (path: String)
    ensures
        path@ == r1cs_of(output_dir@, circuit_name@),
{
    join(output_dir, concat(circuit_name, ".r1cs").as_str())
}

} // verus!
