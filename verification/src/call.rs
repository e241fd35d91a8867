//! What goes to the verifier contract: the key when it is deployed, and the
//! proof, the public inputs and a nullifier when it is called.

use crate::error::{Failure, StellarZkError};
use crate::hash::{compute_nullifier, sha256_digest};
use crate::hexfmt::{hex_bytes, hex_complaint, hex_decode, hex_encode, hex_text, is_hex_text};
use crate::json::{views, JsonModel, JsonValue};
use vstd::prelude::*;

verus! {

/// The bytes of the first `upto` public inputs of a note, one after the
/// other; the first entry that cannot be read decides the failure.
pub open spec fn decoded_inputs(items: Seq<JsonModel>, upto: nat) -> Result<Seq<u8>, Failure>
    decreases upto,
{
    if upto == 0 {
        Ok(Seq::empty())
    } else {
        match decoded_inputs(items, (upto - 1) as nat) {
            Err(f) => Err(f),
            Ok(before) => match items[upto - 1].as_text() {
                None => Err(Failure::Other("invalid hex value in public_inputs.json"@)),
                Some(text) => if is_hex_text(text) {
                    Ok(before + hex_bytes(text))
                } else {
                    Err(Failure::Other(hex_complaint(text)))
                },
            },
        }
    }
}

/// The public inputs that the note of a proof holds, as one run of bytes.
pub open spec fn inputs_of_info(info: JsonModel) -> Result<Seq<u8>, Failure> {
    match info.member_items("public_inputs_hex"@) {
        None => Err(
            Failure::Other("invalid public_inputs.json: missing public_inputs_hex array"@),
        ),
        Some(items) => decoded_inputs(items, items.len()),
    }
}

/// The arguments of a call of `verify`: the proof, the public inputs, and
/// the nullifier that names this verification for good.
pub open spec fn verify_args_of(proof: Seq<u8>, public_inputs: Seq<u8>) -> Seq<
    (Seq<char>, Seq<char>),
> {
    seq![
        ("proof"@, hex_text(proof)),
        ("public_inputs"@, hex_text(public_inputs)),
        ("nullifier"@, hex_text(sha256_digest(proof + public_inputs))),
    ]
}

/// The arguments of the constructor of the contract: the verification key.
pub open spec fn constructor_args_of(vk: Seq<u8>) -> Seq<(Seq<char>, Seq<char>)> {
    seq![("vk_bytes"@, hex_text(vk))]
}

/// An error among the first public inputs is the error of every longer
/// part of the list.
pub proof fn lemma_decoding_error_stays(items: Seq<JsonModel>, k: nat, n: nat)
    requires
        k <= n,
        decoded_inputs(items, k) is Err,
    ensures
        decoded_inputs(items, n) == decoded_inputs(items, k),
    decreases n,
{
    if k < n {
        lemma_decoding_error_stays(items, k, (n - 1) as nat);
    }
}

/// Reads the public inputs from the note that goes with a proof.
pub fn load_public_inputs(info: &JsonValue) -> (r: Result<Vec<u8>, StellarZkError>)
    ensures
        match r {
            Ok(bytes) => inputs_of_info(info@) == Ok::<Seq<u8>, Failure>(bytes@),
            Err(error) => inputs_of_info(info@) == Err::<Seq<u8>, Failure>(error@),
        },
{
    let hexes = match info.get_array("public_inputs_hex") {
        Some(items) => items,
        None => {
            return Err(
                StellarZkError::Other(
                    "invalid public_inputs.json: missing public_inputs_hex array".to_owned(),
                ),
            );
        },
    };
    let ghost items = views(hexes@);
    let mut bytes: Vec<u8> = Vec::new();
    let mut i: usize = 0;
    while i < hexes.len()
        invariant
            i <= hexes@.len(),
            items == views(hexes@),
            info@.member_items("public_inputs_hex"@) == Some(items),
            decoded_inputs(items, i as nat) == Ok::<Seq<u8>, Failure>(bytes@),
        decreases hexes@.len() - i,
    {
        let text = match hexes[i].as_str() {
            Some(s) => s,
            None => {
                proof {
                    lemma_decoding_error_stays(items, (i + 1) as nat, hexes@.len());
                }
                return Err(
                    StellarZkError::Other("invalid hex value in public_inputs.json".to_owned()),
                );
            },
        };
        let element = match hex_decode(text) {
            Ok(b) => b,
            Err(complaint) => {
                proof {
                    lemma_decoding_error_stays(items, (i + 1) as nat, hexes@.len());
                }
                return Err(StellarZkError::Other(complaint));
            },
        };
        let ghost before = bytes@;
        bytes.extend_from_slice(element.as_slice());
        i += 1;
        assert(bytes@ =~= before + element@);
    }
    Ok(bytes)
}

/// The number of field elements in a run of public inputs.
pub fn count_inputs(public_inputs: &[u8]) -> (count: usize)
    ensures
        count == public_inputs@.len() / 32,
{
    public_inputs.len() / 32
}

/// The arguments of a call of `verify`.
pub fn verify_args(proof: &[u8], public_inputs: &[u8]) -> (args: Vec<(String, String)>)
    ensures
        crate::process::text_pairs(args@) == verify_args_of(proof@, public_inputs@),
{
    let nullifier = compute_nullifier(proof, public_inputs);
    let mut args: Vec<(String, String)> = Vec::new();
    args.push(("proof".to_owned(), hex_encode(proof)));
    args.push(("public_inputs".to_owned(), hex_encode(public_inputs)));
    args.push(("nullifier".to_owned(), hex_encode(nullifier.as_slice())));
    assert(crate::process::text_pairs(args@) =~= verify_args_of(proof@, public_inputs@));
    args
}

/// The arguments of the constructor of the contract.
pub fn constructor_args(vk_bytes: &[u8]) -> (args: Vec<(String, String)>)
    ensures
        crate::process::text_pairs(args@) == constructor_args_of(vk_bytes@),
{
    let mut args: Vec<(String, String)> = Vec::new();
    args.push(("vk_bytes".to_owned(), hex_encode(vk_bytes)));
    assert(crate::process::text_pairs(args@) =~= constructor_args_of(vk_bytes@));
    args
}

} // verus!
