//! `nargo` and `bb`: how they are called to compile and run a circuit, to
//! make its verification key and to make and check a proof, and how their
//! failures are told.

use crate::path::{join, joined};
use crate::process::{
    tool_call, tool_call_in, Blame, Telling, TellingModel, ToolCall, ToolCallModel,
};
use crate::text::{collect, texts};
use vstd::prelude::*;

verus! {

/// The directory of the circuit.
pub open spec fn circuits_of(project: Seq<char>) -> Seq<char> {
    joined(project, "circuits"@)
}

/// The run of `nargo` that compiles the circuit of a project.
pub open spec fn compile_call(project: Seq<char>) -> ToolCallModel {
    ToolCallModel {
        program: "nargo"@,
        args: seq!["compile"@],
        cwd: Some(circuits_of(project)),
        env: Seq::empty(),
    }
}

/// The run of `nargo` that runs the circuit on its input, which leaves the
/// witness.
pub open spec fn execute_call(project: Seq<char>) -> ToolCallModel {
    ToolCallModel {
        program: "nargo"@,
        args: seq!["execute"@],
        cwd: Some(circuits_of(project)),
        env: Seq::empty(),
    }
}

/// The run of `bb` that makes the verification key of a compiled circuit.
pub open spec fn write_vk_call(acir: Seq<char>, output: Seq<char>, oracle_hash: Seq<char>) -> ToolCallModel {
    ToolCallModel {
        program: "bb"@,
        args: seq!["write_vk"@, "--oracle_hash"@, oracle_hash, "-b"@, acir, "-o"@, output],
        cwd: None,
        env: Seq::empty(),
    }
}

/// The run of `bb` that checks a proof against a verification key.
pub open spec fn verify_call(proof: Seq<char>, vk: Seq<char>, oracle_hash: Seq<char>) -> ToolCallModel {
    ToolCallModel {
        program: "bb"@,
        args: seq!["verify_ultra_honk"@, "--oracle_hash"@, oracle_hash, "-p"@, proof, "-k"@, vk],
        cwd: None,
        env: Seq::empty(),
    }
}

/// The run of `bb` that makes a proof from a compiled circuit and a witness.
pub open spec fn prove_call(
    acir: Seq<char>,
    witness: Seq<char>,
    output: Seq<char>,
    oracle_hash: Seq<char>,
) -> ToolCallModel {
    ToolCallModel {
        program: "bb"@,
        args: seq![
            "prove_ultra_honk"@,
            "--oracle_hash"@,
            oracle_hash,
            "-b"@,
            acir,
            "-w"@,
            witness,
            "-o"@,
            output,
        ],
        cwd: None,
        env: Seq::empty(),
    }
}

/// How the failures of a tool are told where its own words are the
/// diagnostic, as they are.
pub open spec fn plain_telling(blame: Blame, tool: Seq<char>, install: Seq<char>) -> TellingModel {
    TellingModel { blame, failed: Seq::empty(), unstarted: Seq::empty(), tool, install }
}

/// How the failures of the verification of a proof off chain are told.
pub open spec fn verify_telling() -> TellingModel {
    TellingModel {
        blame: Blame::Proof,
        failed: "proof verification failed: "@,
        unstarted: Seq::empty(),
        tool: "bb"@,
        install: "bbup"@,
    }
}

/// The run of `nargo` that compiles the circuit.
pub fn compile(project_dir: &str) -> (call: ToolCall)
    ensures
        call@ == compile_call(project_dir@),
{
    let args = collect(["compile"].as_slice());
    assert(texts(args@) =~= seq!["compile"@]);
    tool_call_in("nargo", args, join(project_dir, "circuits").as_str())
}

/// The run of `nargo` that makes the witness.
pub fn execute(project_dir: &str) -> (call: ToolCall)
    ensures
        call@ == execute_call(project_dir@),
{
    let args = collect(["execute"].as_slice());
    assert(texts(args@) =~= seq!["execute"@]);
    tool_call_in("nargo", args, join(project_dir, "circuits").as_str())
}

/// The run of `bb` that makes the verification key.
pub fn write_vk(acir_path: &str, output_path: &str, oracle_hash: &str) -> (call: ToolCall)
    ensures
        call@ == write_vk_call(acir_path@, output_path@, oracle_hash@),
{
    let args = collect(
        ["write_vk", "--oracle_hash", oracle_hash, "-b", acir_path, "-o", output_path].as_slice(),
    );
    assert(texts(args@) =~= write_vk_call(acir_path@, output_path@, oracle_hash@).args);
    tool_call("bb", args)
}

/// The run of `bb` that checks a proof off chain.
pub fn verify_ultrahonk(proof_path: &str, vk_path: &str, oracle_hash: &str) -> (call: ToolCall)
    ensures
        call@ == verify_call(proof_path@, vk_path@, oracle_hash@),
{
    let args = collect(
        [
            "verify_ultra_honk",
            "--oracle_hash",
            oracle_hash,
            "-p",
            proof_path,
            "-k",
            vk_path,
        ].as_slice(),
    );
    assert(texts(args@) =~= verify_call(proof_path@, vk_path@, oracle_hash@).args);
    tool_call("bb", args)
}

/// The run of `bb` that makes a proof.
pub fn prove_ultrahonk(acir_path: &str, witness_path: &str, output_path: &str, oracle_hash: &str) -> (call:
    ToolCall)
    ensures
        call@ == prove_call(acir_path@, witness_path@, output_path@, oracle_hash@),
{
    let args = collect(
        [
            "prove_ultra_honk",
            "--oracle_hash",
            oracle_hash,
            "-b",
            acir_path,
            "-w",
            witness_path,
            "-o",
            output_path,
        ].as_slice(),
    );
    assert(texts(args@) =~= prove_call(
        acir_path@,
        witness_path@,
        output_path@,
        oracle_hash@,
    ).args);
    tool_call("bb", args)
}

/// How the failures of `nargo` are told.
pub fn nargo_telling(blame: Blame) -> (telling: Telling<'static>)
    ensures
        telling@ == plain_telling(blame, "nargo"@, "noirup"@),
{
    proof {
        reveal_strlit("");
        assert(""@ =~= Seq::<char>::empty());
    }
    Telling { blame, failed: "", unstarted: "", tool: "nargo", install: "noirup" }
}

/// How the failures of `bb` are told.
pub fn bb_telling(blame: Blame) -> (telling: Telling<'static>)
    ensures
        telling@ == plain_telling(blame, "bb"@, "bbup"@),
{
    proof {
        reveal_strlit("");
        assert(""@ =~= Seq::<char>::empty());
    }
    Telling { blame, failed: "", unstarted: "", tool: "bb", install: "bbup" }
}

/// How the failures of the verification of a proof off chain are told.
pub fn bb_verify_telling() -> (telling: Telling<'static>)
    ensures
        telling@ == verify_telling(),
{
    proof {
        reveal_strlit("");
        assert(""@ =~= Seq::<char>::empty());
    }
    Telling {
        blame: Blame::Proof,
        failed: "proof verification failed: ",
        unstarted: "",
        tool: "bb",
        install: "bbup",
    }
}

} // verus!
