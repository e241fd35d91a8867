//! `snarkjs`: how it is called for the setup, the witness and the proof, how
//! its failures are told, and how what it writes is encoded.

use crate::error::{Failure, StellarZkError};
use crate::field::element_bytes;
use crate::groth16::serializer::{
    proof_encoding, public_inputs_encoding, serialize_proof_from_snarkjs,
    serialize_public_inputs_from_snarkjs, serialize_vk_from_snarkjs, vk_encoding, SerializeError,
    SerializeFault,
};
use crate::json::{JsonModel, JsonValue};
use crate::path::{replaced_extension, with_extension};
use crate::process::{
    calls_of, out_of_turn, tool_call, unexpected, Event, EventModel, ToolCall, ToolCallModel,
};
use crate::text::{collect, concat, texts};
use vstd::prelude::*;

verus! {

/// A run of `snarkjs` with `args`.
pub open spec fn snarkjs_call(args: Seq<Seq<char>>) -> ToolCallModel {
    ToolCallModel { program: "snarkjs"@, args, cwd: None, env: Seq::empty() }
}

/// What went wrong with a run of `snarkjs`, if anything. A run that failed
/// is told with all that it printed.
pub open spec fn snarkjs_failure(event: EventModel, subcommand: Seq<char>) -> Option<Failure> {
    match event {
        EventModel::Exited { success, stdout, stderr } => if success {
            None
        } else {
            Some(
                Failure::ProofGeneration(
                    "snarkjs "@ + subcommand + " failed:\nstdout: "@ + stdout + "\nstderr: "@
                        + stderr,
                ),
            )
        },
        EventModel::NotFound { message } => Some(
            Failure::MissingTool { name: "snarkjs"@, install: "npm install -g snarkjs"@ },
        ),
        EventModel::Failed { message } => Some(
            Failure::ProofGeneration("failed to run snarkjs: "@ + message),
        ),
        _ => Some(Failure::Other(out_of_turn())),
    }
}

/// Where the ceremony is kept while it is new.
pub open spec fn ptau_new_of(output: Seq<char>) -> Seq<char> {
    replaced_extension(output, "ptau.tmp"@)
}

/// Where the ceremony is kept after the contribution.
pub open spec fn ptau_contributed_of(output: Seq<char>) -> Seq<char> {
    replaced_extension(output, "ptau.contributed"@)
}

/// The runs that make a Powers of Tau file for development, for circuits of
/// up to 2^12 constraints: a new ceremony, one contribution, the
/// preparation of the second phase.
pub open spec fn dev_ptau_calls(output: Seq<char>) -> Seq<ToolCallModel> {
    seq![
        snarkjs_call(seq!["powersoftau"@, "new"@, "bn128"@, "12"@, ptau_new_of(output)]),
        snarkjs_call(
            seq![
                "powersoftau"@,
                "contribute"@,
                ptau_new_of(output),
                ptau_contributed_of(output),
                "--name=dev"@,
                "-e=stellar-zk-dev-entropy"@,
            ],
        ),
        snarkjs_call(
            seq!["powersoftau"@, "prepare"@, "phase2"@, ptau_contributed_of(output), output],
        ),
    ]
}

/// The runs that make the keys of a circuit: the trusted setup, which
/// leaves the proving key, and the export of the verification key.
pub open spec fn key_calls(
    r1cs: Seq<char>,
    ptau: Seq<char>,
    zkey: Seq<char>,
    vk_json: Seq<char>,
) -> Seq<ToolCallModel> {
    seq![
        snarkjs_call(seq!["groth16"@, "setup"@, r1cs, ptau, zkey]),
        snarkjs_call(seq!["zkey"@, "export"@, "verificationkey"@, zkey, vk_json]),
    ]
}

/// The run that computes the witness of an input.
pub open spec fn witness_call(wasm: Seq<char>, input: Seq<char>, witness: Seq<char>) -> ToolCallModel {
    snarkjs_call(seq!["wtns"@, "calculate"@, wasm, input, witness])
}

/// The run that makes a proof from a witness.
pub open spec fn proof_call(
    zkey: Seq<char>,
    witness: Seq<char>,
    proof_json: Seq<char>,
    public_json: Seq<char>,
) -> ToolCallModel {
    snarkjs_call(seq!["groth16"@, "prove"@, zkey, witness, proof_json, public_json])
}

/// The failure for a document that cannot be encoded.
pub open spec fn unencoded(what: Seq<char>, fault: SerializeFault) -> Failure {
    Failure::ProofGeneration(what + fault.text())
}

/// The failure for a file that holds no JSON.
pub open spec fn unparsed(file: Seq<char>, message: Seq<char>) -> Failure {
    Failure::ProofGeneration("failed to parse "@ + file + ": "@ + message)
}

/// The verification key for the on-chain verifier, from the key as
/// `snarkjs` exports it.
pub open spec fn converted_vk(doc: JsonModel) -> Result<Seq<u8>, Failure> {
    match vk_encoding(doc) {
        Ok(bytes) => Ok(bytes),
        Err(fault) => Err(unencoded("VK serialization: "@, fault)),
    }
}

/// The proof for the on-chain verifier, from the proof as `snarkjs` writes it.
pub open spec fn converted_proof(doc: JsonModel) -> Result<Seq<u8>, Failure> {
    match proof_encoding(doc) {
        Ok(bytes) => Ok(bytes),
        Err(fault) => Err(unencoded("proof serialization: "@, fault)),
    }
}

/// The public inputs for the on-chain verifier, from the list as `snarkjs`
/// writes it.
pub open spec fn converted_inputs(doc: JsonModel) -> Result<Seq<Seq<u8>>, Failure> {
    match public_inputs_encoding(doc) {
        Ok(elements) => Ok(elements),
        Err(fault) => Err(unencoded("public input serialization: "@, fault)),
    }
}

/// A run of `snarkjs` with `args`.
pub fn run_snarkjs(args: Vec<String>) -> (call: ToolCall)
    ensures
        call@ == snarkjs_call(texts(args@)),
{
    tool_call("snarkjs", args)
}

/// Tells what went wrong with a run of `snarkjs`, if anything.
pub fn check_snarkjs(event: Event, subcommand: &str) -> (r: Option<StellarZkError>)
    ensures
        match r {
            Some(error) => snarkjs_failure(event@, subcommand@) == Some(error@),
            None => snarkjs_failure(event@, subcommand@) is None,
        },
{
    match event {
        Event::Exited { success, stdout, stderr } => if success {
            None
        } else {
            let mut text = concat("snarkjs ", subcommand);
            text.append(" failed:\nstdout: ");
            text.append(stdout.as_str());
            text.append("\nstderr: ");
            text.append(stderr.as_str());
            Some(StellarZkError::ProofGeneration(text))
        },
        Event::NotFound { message } => Some(
            StellarZkError::MissingTool {
                name: "snarkjs".to_owned(),
                install: "npm install -g snarkjs".to_owned(),
            },
        ),
        Event::Failed { message } => Some(
            StellarZkError::ProofGeneration(concat("failed to run snarkjs: ", message.as_str())),
        ),
        _ => Some(unexpected()),
    }
}

/// The runs that make a Powers of Tau file for development at `output_path`.
/// For production, take the file of a real ceremony.
pub fn generate_dev_ptau(output_path: &str) -> (calls: Vec<ToolCall>)
    ensures
        calls_of(calls@) == dev_ptau_calls(output_path@),
{
    let fresh = with_extension(output_path, "ptau.tmp");
    let contributed = with_extension(output_path, "ptau.contributed");
    let first = collect(["powersoftau", "new", "bn128", "12", fresh.as_str()].as_slice());
    let second = collect(
        [
            "powersoftau",
            "contribute",
            fresh.as_str(),
            contributed.as_str(),
            "--name=dev",
            "-e=stellar-zk-dev-entropy",
        ].as_slice(),
    );
    let third = collect(
        ["powersoftau", "prepare", "phase2", contributed.as_str(), output_path].as_slice(),
    );
    proof {
        let expected = dev_ptau_calls(output_path@);
        assert(texts(first@) =~= expected[0].args);
        assert(texts(second@) =~= expected[1].args);
        assert(texts(third@) =~= expected[2].args);
    }
    let mut calls: Vec<ToolCall> = Vec::new();
    calls.push(run_snarkjs(first));
    calls.push(run_snarkjs(second));
    calls.push(run_snarkjs(third));
    assert(calls_of(calls@) =~= dev_ptau_calls(output_path@));
    calls
}

/// The runs that make the proving key and the verification key of a
/// circuit from its constraints and a Powers of Tau file.
pub fn generate_keys(r1cs_path: &str, ptau_path: &str, zkey_output: &str, vk_json_output: &str) -> (calls:
    Vec<ToolCall>)
    ensures
        calls_of(calls@) == key_calls(r1cs_path@, ptau_path@, zkey_output@, vk_json_output@),
{
    let setup = collect(["groth16", "setup", r1cs_path, ptau_path, zkey_output].as_slice());
    let export = collect(
        ["zkey", "export", "verificationkey", zkey_output, vk_json_output].as_slice(),
    );
    proof {
        let expected = key_calls(r1cs_path@, ptau_path@, zkey_output@, vk_json_output@);
        assert(texts(setup@) =~= expected[0].args);
        assert(texts(export@) =~= expected[1].args);
    }
    let mut calls: Vec<ToolCall> = Vec::new();
    calls.push(run_snarkjs(setup));
    calls.push(run_snarkjs(export));
    assert(calls_of(calls@) =~= key_calls(
        r1cs_path@,
        ptau_path@,
        zkey_output@,
        vk_json_output@,
    ));
    calls
}

/// The run that computes the witness of an input with the witness
/// generator of the circuit.
pub fn generate_witness(wasm_path: &str, input_path: &str, witness_output: &str) -> (call: ToolCall)
    ensures
        call@ == witness_call(wasm_path@, input_path@, witness_output@),
{
    let args = collect(["wtns", "calculate", wasm_path, input_path, witness_output].as_slice());
    assert(texts(args@) =~= witness_call(wasm_path@, input_path@, witness_output@).args);
    run_snarkjs(args)
}

/// The run that makes a proof from a witness; `snarkjs` leaves the proof and
/// the public inputs as JSON.
pub fn generate_proof(
    zkey_path: &str,
    witness_path: &str,
    proof_json_output: &str,
    public_json_output: &str,
) -> (call: ToolCall)
    ensures
        call@ == proof_call(zkey_path@, witness_path@, proof_json_output@, public_json_output@),
{
    let args = collect(
        [
            "groth16",
            "prove",
            zkey_path,
            witness_path,
            proof_json_output,
            public_json_output,
        ].as_slice(),
    );
    assert(texts(args@) =~= proof_call(
        zkey_path@,
        witness_path@,
        proof_json_output@,
        public_json_output@,
    ).args);
    run_snarkjs(args)
}

/// The error for a document that cannot be encoded.
fn serialization_error(what: &str, error: &SerializeError) -> (r: StellarZkError)
    ensures
        r@ == unencoded(what@, error@),
{
    StellarZkError::ProofGeneration(concat(what, error.to_string().as_str()))
}

/// Converts the verification key that `snarkjs` exports to the form that
/// the on-chain verifier reads.
pub fn convert_vk_to_soroban(vk_json: &JsonValue) -> (r: Result<Vec<u8>, StellarZkError>)
    ensures
        match r {
            Ok(bytes) => converted_vk(vk_json@) == Ok::<Seq<u8>, Failure>(bytes@),
            Err(error) => converted_vk(vk_json@) == Err::<Seq<u8>, Failure>(error@),
        },
{
    match serialize_vk_from_snarkjs(vk_json) {
        Ok(bytes) => Ok(bytes),
        Err(e) => Err(serialization_error("VK serialization: ", &e)),
    }
}

/// Converts the proof that `snarkjs` writes to the 256 bytes that the
/// on-chain verifier reads.
pub fn convert_proof(proof_json: &JsonValue) -> (r: Result<Vec<u8>, StellarZkError>)
    ensures
        match r {
            Ok(bytes) => converted_proof(proof_json@) == Ok::<Seq<u8>, Failure>(bytes@)
                && bytes@.len() == 256,
            Err(error) => converted_proof(proof_json@) == Err::<Seq<u8>, Failure>(error@),
        },
{
    match serialize_proof_from_snarkjs(proof_json) {
        Ok(bytes) => Ok(bytes),
        Err(e) => Err(serialization_error("proof serialization: ", &e)),
    }
}

/// Converts the public inputs that `snarkjs` writes to field elements.
pub fn convert_public_inputs(public_json: &JsonValue) -> (r: Result<Vec<[u8; 32]>, StellarZkError>)
    ensures
        match r {
            Ok(elements) => converted_inputs(public_json@) == Ok::<Seq<Seq<u8>>, Failure>(
                element_bytes(elements@),
            ),
            Err(error) => converted_inputs(public_json@) == Err::<Seq<Seq<u8>>, Failure>(error@),
        },
{
    match serialize_public_inputs_from_snarkjs(public_json) {
        Ok(elements) => Ok(elements),
        Err(e) => Err(serialization_error("public input serialization: ", &e)),
    }
}

/// The error for a file that holds no JSON.
pub fn parse_error(file: &str, message: &str) -> (r: StellarZkError)
    ensures
        r@ == unparsed(file@, message@),
{
    let mut text = concat("failed to parse ", file);
    text.append(": ");
    text.append(message);
    StellarZkError::ProofGeneration(text)
}

} // verus!
