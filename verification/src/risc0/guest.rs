//! The guest program and the host binary, both built by `cargo`.

use crate::process::{tool_call_in, Blame, Telling, TellingModel, ToolCall, ToolCallModel};
use crate::text::{collect, texts};
use vstd::prelude::*;

verus! {

/// The run of `cargo` that builds the guest program for `target`.
pub open spec fn guest_call(guest_dir: Seq<char>, target: Seq<char>) -> ToolCallModel {
    ToolCallModel {
        program: "cargo"@,
        args: seq!["build"@, "--release"@, "--target"@, target],
        cwd: Some(guest_dir),
        env: Seq::empty(),
    }
}

/// The run of `cargo` that builds the host binary, which makes the proofs.
pub open spec fn host_call(host_dir: Seq<char>) -> ToolCallModel {
    ToolCallModel {
        program: "cargo"@,
        args: seq!["build"@, "--release"@],
        cwd: Some(host_dir),
        env: Seq::empty(),
    }
}

/// How the failures of the guest build are told.
pub open spec fn guest_telling() -> TellingModel {
    TellingModel {
        blame: Blame::Compilation,
        failed: "RISC Zero guest build failed: "@,
        unstarted: "failed to run cargo for guest build: "@,
        tool: Seq::empty(),
        install: Seq::empty(),
    }
}

/// How the failures of the host build are told.
pub open spec fn host_telling() -> TellingModel {
    TellingModel {
        blame: Blame::Compilation,
        failed: "RISC Zero host build failed: "@,
        unstarted: "failed to run cargo for host build: "@,
        tool: Seq::empty(),
        install: Seq::empty(),
    }
}

/// The run of `cargo` that builds the guest program.
pub fn build_guest(guest_dir: &str, target: &str) -> (call: ToolCall)
    ensures
        call@ == guest_call(guest_dir@, target@),
{
    let args = collect(["build", "--release", "--target", target].as_slice());
    assert(texts(args@) =~= guest_call(guest_dir@, target@).args);
    tool_call_in("cargo", args, guest_dir)
}

/// The run of `cargo` that builds the host binary.
pub fn build_host(host_dir: &str) -> (call: ToolCall)
    ensures
        call@ == host_call(host_dir@),
{
    let args = collect(["build", "--release"].as_slice());
    assert(texts(args@) =~= host_call(host_dir@).args);
    tool_call_in("cargo", args, host_dir)
}

/// How the failures of the guest build are told.
pub fn build_guest_telling() -> (telling: Telling<'static>)
    ensures
        telling@ == guest_telling(),
{
    proof {
        reveal_strlit("");
        assert(""@ =~= Seq::<char>::empty());
    }
    Telling {
        blame: Blame::Compilation,
        failed: "RISC Zero guest build failed: ",
        unstarted: "failed to run cargo for guest build: ",
        tool: "",
        install: "",
    }
}

/// How the failures of the host build are told.
pub fn build_host_telling() -> (telling: Telling<'static>)
    ensures
        telling@ == host_telling(),
{
    proof {
        reveal_strlit("");
        assert(""@ =~= Seq::<char>::empty());
    }
    Telling {
        blame: Blame::Compilation,
        failed: "RISC Zero host build failed: ",
        unstarted: "failed to run cargo for host build: ",
        tool: "",
        install: "",
    }
}

} // verus!
