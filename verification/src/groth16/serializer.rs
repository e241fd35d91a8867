//! From the JSON that `snarkjs` writes to the byte layouts that the on-chain
//! verifier reads.
//!
//! A field element is a decimal string in the JSON and 32 big-endian bytes on
//! the wire. A G1 point is `x ‖ y`. A G2 point comes as `[[x_c0, x_c1], [y_c0, y_c1]]`
//! and is written as `x_c1 ‖ x_c0 ‖ y_c1 ‖ y_c0`: the verifier wants the
//! higher-degree component first, and a point with the components left in
//! place is still 128 well-formed bytes that name another point.

use crate::field::{
    be_bytes, be_value, element_bytes, field_bound, is_minimal_be, lex_less, pad_to_field,
};
use crate::field::{
    lemma_be_bytes_of_value, lemma_be_value_bound, lemma_be_value_leading_zeros,
    lemma_be_value_lower, lemma_encoding_preserves_order, lemma_exp256_monotonic,
};
use crate::json::{views, JsonModel, JsonValue};
use crate::text::{concat, decimal_text, u64_to_string};
use num_bigint::BigUint;
use num_traits::Num;
use vstd::prelude::*;

verus! {

/// Which part of a document has the wrong shape.
#[derive(Debug, Clone, Copy, PartialEq, Eq, Structural)]
pub enum Shape {
    G1Coordinates,
    G1X,
    G1Y,
    G2Coordinates,
    G2X,
    G2Y,
    G2Pairs,
    G2XC0,
    G2XC1,
    G2YC0,
    G2YC1,
    ProofA,
    ProofB,
    ProofC,
    KeyAlpha,
    KeyBeta,
    KeyGamma,
    KeyDelta,
    KeyIc,
    PublicInputs,
}

/// Why a document could not be encoded.
#[derive(Debug)]
pub enum SerializeError {
    /// A coordinate is no decimal number; `reason` is the parser's own word.
    InvalidDecimal { input: String, reason: String },
    /// A coordinate needs more than 32 bytes.
    TooLarge { input: String },
    /// A part of the document is missing or of the wrong kind.
    Malformed { shape: Shape },
    /// The entry at `index` of the key's `IC` list is no array.
    IcEntry { index: usize },
    /// The key's `IC` list has more entries than a 32-bit count can tell.
    IcCount { count: usize },
    /// The public input at `index` is no string.
    PublicInput { index: usize },
}

/// The mathematical value of a [`SerializeError`].
pub enum SerializeFault {
    InvalidDecimal { input: Seq<char>, reason: Seq<char> },
    TooLarge { input: Seq<char> },
    Malformed { shape: Shape },
    IcEntry { index: usize },
    IcCount { count: usize },
    PublicInput { index: usize },
}

impl View for SerializeError {
    type V = SerializeFault;

    open spec fn view(&self) -> SerializeFault {
        match self {
            SerializeError::InvalidDecimal { input, reason } => SerializeFault::InvalidDecimal {
                input: input@,
                reason: reason@,
            },
            SerializeError::TooLarge { input } => SerializeFault::TooLarge { input: input@ },
            SerializeError::Malformed { shape } => SerializeFault::Malformed { shape: *shape },
            SerializeError::IcEntry { index } => SerializeFault::IcEntry { index: *index },
            SerializeError::IcCount { count } => SerializeFault::IcCount { count: *count },
            SerializeError::PublicInput { index } => SerializeFault::PublicInput { index: *index },
        }
    }
}

impl Shape {
    /// The sentence that tells what is wrong with the part.
    pub open spec fn sentence(self) -> Seq<char> {
        match self {
            Shape::G1Coordinates => "G1 point must have at least 2 coordinates"@,
            Shape::G1X => "G1.x must be a string"@,
            Shape::G1Y => "G1.y must be a string"@,
            Shape::G2Coordinates => "G2 point must have at least 2 coordinate pairs"@,
            Shape::G2X => "G2.x must be an array [c0, c1]"@,
            Shape::G2Y => "G2.y must be an array [c0, c1]"@,
            Shape::G2Pairs => "G2 coordinate pairs must have 2 elements"@,
            Shape::G2XC0 => "G2.x.c0 must be a string"@,
            Shape::G2XC1 => "G2.x.c1 must be a string"@,
            Shape::G2YC0 => "G2.y.c0 must be a string"@,
            Shape::G2YC1 => "G2.y.c1 must be a string"@,
            Shape::ProofA => "proof.pi_a must be an array"@,
            Shape::ProofB => "proof.pi_b must be an array"@,
            Shape::ProofC => "proof.pi_c must be an array"@,
            Shape::KeyAlpha => "vk.vk_alpha_1 must be an array"@,
            Shape::KeyBeta => "vk.vk_beta_2 must be an array"@,
            Shape::KeyGamma => "vk.vk_gamma_2 must be an array"@,
            Shape::KeyDelta => "vk.vk_delta_2 must be an array"@,
            Shape::KeyIc => "vk.IC must be an array"@,
            Shape::PublicInputs => "public inputs must be an array"@,
        }
    }

    /// The sentence that tells what is wrong with the part.
    pub fn describe(self) -> (s: &'static str)
        ensures
            s@ == self.sentence(),
    {
        match self {
            Shape::G1Coordinates => "G1 point must have at least 2 coordinates",
            Shape::G1X => "G1.x must be a string",
            Shape::G1Y => "G1.y must be a string",
            Shape::G2Coordinates => "G2 point must have at least 2 coordinate pairs",
            Shape::G2X => "G2.x must be an array [c0, c1]",
            Shape::G2Y => "G2.y must be an array [c0, c1]",
            Shape::G2Pairs => "G2 coordinate pairs must have 2 elements",
            Shape::G2XC0 => "G2.x.c0 must be a string",
            Shape::G2XC1 => "G2.x.c1 must be a string",
            Shape::G2YC0 => "G2.y.c0 must be a string",
            Shape::G2YC1 => "G2.y.c1 must be a string",
            Shape::ProofA => "proof.pi_a must be an array",
            Shape::ProofB => "proof.pi_b must be an array",
            Shape::ProofC => "proof.pi_c must be an array",
            Shape::KeyAlpha => "vk.vk_alpha_1 must be an array",
            Shape::KeyBeta => "vk.vk_beta_2 must be an array",
            Shape::KeyGamma => "vk.vk_gamma_2 must be an array",
            Shape::KeyDelta => "vk.vk_delta_2 must be an array",
            Shape::KeyIc => "vk.IC must be an array",
            Shape::PublicInputs => "public inputs must be an array",
        }
    }
}

impl SerializeFault {
    /// The sentence that tells a user of the fault.
    pub open spec fn text(self) -> Seq<char> {
        match self {
            SerializeFault::InvalidDecimal { input, reason } => "invalid decimal: "@ + input
                + ": "@ + reason,
            SerializeFault::TooLarge { input } => "value too large for 32 bytes: "@ + input,
            SerializeFault::Malformed { shape } => shape.sentence(),
            SerializeFault::IcEntry { index } => "IC["@ + decimal_text(index as nat)
                + "] must be an array"@,
            SerializeFault::IcCount { count } => "IC has more entries than a 32-bit count can tell: "@
                + decimal_text(count as nat),
            SerializeFault::PublicInput { index } => "public_input["@ + decimal_text(index as nat)
                + "] must be a string"@,
        }
    }
}

impl SerializeError {
    /// The sentence that tells a user of the error.
    pub fn to_string(&self) -> (s: String)
        ensures
            s@ == self@.text(),
    {
        match self {
            SerializeError::InvalidDecimal { input, reason } => {
                let mut s = concat("invalid decimal: ", input.as_str());
                s.append(": ");
                s.append(reason.as_str());
                s
            },
            SerializeError::TooLarge { input } => concat(
                "value too large for 32 bytes: ",
                input.as_str(),
            ),
            SerializeError::Malformed { shape } => shape.describe().to_owned(),
            SerializeError::IcEntry { index } => {
                let mut s = concat("IC[", u64_to_string(*index as u64).as_str());
                s.append("] must be an array");
                s
            },
            SerializeError::IcCount { count } => concat(
                "IC has more entries than a 32-bit count can tell: ",
                u64_to_string(*count as u64).as_str(),
            ),
            SerializeError::PublicInput { index } => {
                let mut s = concat("public_input[", u64_to_string(*index as u64).as_str());
                s.append("] must be a string");
                s
            },
        }
    }
}

/// A decimal digit.
pub open spec fn is_digit(c: char) -> bool {
    '0' <= c <= '9'
}

/// The text after one leading `+`. A `+` that another `+` follows is left in place.
pub open spec fn unsigned_part(s: Seq<char>) -> Seq<char> {
    if s.len() > 0 && s[0] == '+' && !(s.len() > 1 && s[1] == '+') {
        s.skip(1)
    } else {
        s
    }
}

/// The texts that are read as a decimal number: an optional `+`, then a digit,
/// then digits and `_` in any number.
pub open spec fn is_decimal_literal(s: Seq<char>) -> bool {
    let t = unsigned_part(s);
    &&& t.len() > 0
    &&& t[0] != '_'
    &&& forall|i: int| 0 <= i < t.len() ==> is_digit(#[trigger] t[i]) || t[i] == '_'
}

/// The number that digits denote, each `_` passed over.
pub open spec fn digits_value(t: Seq<char>) -> nat
    decreases t.len(),
{
    if t.len() == 0 {
        0
    } else if t.last() == '_' {
        digits_value(t.drop_last())
    } else {
        10 * digits_value(t.drop_last()) + (t.last() as nat - '0' as nat) as nat
    }
}

/// The number that a decimal literal denotes.
pub open spec fn decimal_value(s: Seq<char>) -> nat {
    digits_value(unsigned_part(s))
}

/// What the parser says of a text that is no decimal literal.
pub open spec fn decimal_complaint(s: Seq<char>) -> Seq<char> {
    if unsigned_part(s).len() == 0 {
        "cannot parse integer from empty string"@
    } else {
        "invalid digit found in string"@
    }
}

/// The encoding of a decimal string as a field element.
pub open spec fn field_encoding(s: Seq<char>) -> Result<Seq<u8>, SerializeFault> {
    if !is_decimal_literal(s) {
        Err(SerializeFault::InvalidDecimal { input: s, reason: decimal_complaint(s) })
    } else if decimal_value(s) >= field_bound() {
        Err(SerializeFault::TooLarge { input: s })
    } else {
        Ok(be_bytes(decimal_value(s), 32))
    }
}

/// Encoding preserves order: of two decimal numbers below `2^256`, the
/// smaller has the encoding that comes first byte by byte.
pub proof fn lemma_field_encoding_preserves_order(s: Seq<char>, t: Seq<char>)
    requires
        is_decimal_literal(s),
        is_decimal_literal(t),
        decimal_value(s) < decimal_value(t),
        decimal_value(t) < field_bound(),
    ensures
        field_encoding(s) is Ok,
        field_encoding(t) is Ok,
        lex_less(field_encoding(s)->Ok_0, field_encoding(t)->Ok_0),
{
    lemma_encoding_preserves_order(decimal_value(s), decimal_value(t));
}

/// What is turned down: the empty text, a text with a `-` in front or with
/// any other character that is neither a digit nor a `_`, and a number of
/// `2^256` or more.
pub proof fn lemma_field_encoding_rejects(s: Seq<char>)
    ensures
        s.len() == 0 ==> field_encoding(s) is Err,
        s.len() > 0 && s[0] == '-' ==> field_encoding(s) is Err,
        (exists|i: int| 1 <= i < s.len() && !is_digit(#[trigger] s[i]) && s[i] != '_')
            ==> field_encoding(s) is Err,
        is_decimal_literal(s) && decimal_value(s) >= field_bound() ==> field_encoding(s)
            matches Err(SerializeFault::TooLarge { .. }),
        field_encoding(s) is Ok <==> is_decimal_literal(s) && decimal_value(s) < field_bound(),
{
    let t = unsigned_part(s);
    if s.len() > 0 && s[0] == '-' {
        assert(t == s);
        assert(!is_digit(t[0]) && t[0] != '_');
    }
    if exists|i: int| 1 <= i < s.len() && !is_digit(#[trigger] s[i]) && s[i] != '_' {
        let i = choose|i: int| 1 <= i < s.len() && !is_digit(#[trigger] s[i]) && s[i] != '_';
        if t == s {
            assert(!is_digit(t[i]) && t[i] != '_');
        } else {
            assert(t[i - 1] == s[i]);
            assert(!is_digit(t[i - 1]) && t[i - 1] != '_');
        }
    }
}

/// `BigUint::from_str_radix(s, 10)` of `num-bigint`, handed on through
/// `BigUint::to_bytes_be`; an error is given as the text that it displays.
///
/// The parser drops one leading `+`, wants a first character that is a digit,
/// and passes over every `_` after it. The bytes are those of the number, most
/// significant first and without leading zero bytes; zero is one zero byte.
#[verifier::external_body]
fn decimal_to_minimal_be(s: &str) -> (r: Result<Vec<u8>, String>)
    ensures
        match r {
            Ok(bytes) => is_decimal_literal(s@) && is_minimal_be(bytes@) && be_value(bytes@)
                == decimal_value(s@),
            Err(reason) => !is_decimal_literal(s@) && reason@ == decimal_complaint(s@),
        },
{
    match BigUint::from_str_radix(s, 10) {
        Ok(n) => Ok(n.to_bytes_be()),
        Err(e) => Err(e.to_string()),
    }
}

/// Encodes a decimal string as a field element: 32 bytes, big-endian, padded
/// with zero bytes in front.
pub fn decimal_to_be_bytes(s: &str) -> (r: Result<[u8; 32], SerializeError>)
    ensures
        match r {
            Ok(out) => field_encoding(s@) == Ok::<Seq<u8>, SerializeFault>(out@),
            Err(e) => field_encoding(s@) == Err::<Seq<u8>, SerializeFault>(e@),
        },
{
    match decimal_to_minimal_be(s) {
        Err(reason) => Err(SerializeError::InvalidDecimal { input: s.to_owned(), reason }),
        Ok(bytes) => {
            proof {
                lemma_be_value_bound(bytes@);
                if bytes@.len() > 32 {
                    lemma_be_value_lower(bytes@);
                    lemma_exp256_monotonic(32, (bytes@.len() - 1) as nat);
                } else {
                    lemma_exp256_monotonic(bytes@.len(), 32);
                }
            }
            match pad_to_field(bytes.as_slice()) {
                None => Err(SerializeError::TooLarge { input: s.to_owned() }),
                Some(out) => {
                    proof {
                        lemma_be_value_leading_zeros((32 - bytes@.len()) as nat, bytes@);
                        lemma_be_bytes_of_value(out@);
                    }
                    Ok(out)
                },
            }
        },
    }
}

/// The encoding of a G1 point: `x ‖ y`.
pub open spec fn g1_layout(x: Seq<u8>, y: Seq<u8>) -> Seq<u8> {
    x + y
}

/// The encoding of a G2 point with `x = x_c0 + x_c1·u` and `y = y_c0 + y_c1·u`:
/// of each coordinate the higher-degree component first.
pub open spec fn g2_layout(x_c0: Seq<u8>, x_c1: Seq<u8>, y_c0: Seq<u8>, y_c1: Seq<u8>) -> Seq<u8> {
    x_c1 + x_c0 + y_c1 + y_c0
}

/// The encoding of a G1 point given as JSON: `["x", "y", ..]`.
#[verifier::opaque]
pub open spec fn g1_encoding(coords: Seq<JsonModel>) -> Result<Seq<u8>, SerializeFault> {
    if coords.len() < 2 {
        Err(SerializeFault::Malformed { shape: Shape::G1Coordinates })
    } else if coords[0].as_text() is None {
        Err(SerializeFault::Malformed { shape: Shape::G1X })
    } else if coords[1].as_text() is None {
        Err(SerializeFault::Malformed { shape: Shape::G1Y })
    } else {
        match field_encoding(coords[0].as_text()->0) {
            Err(e) => Err(e),
            Ok(x) => match field_encoding(coords[1].as_text()->0) {
                Err(e) => Err(e),
                Ok(y) => Ok(g1_layout(x, y)),
            },
        }
    }
}

/// The two components of a G2 coordinate given as JSON: `["c0", "c1", ..]`.
pub open spec fn g2_pair_texts(pair: Seq<JsonModel>, first: Shape, second: Shape) -> Result<
    (Seq<char>, Seq<char>),
    SerializeFault,
> {
    if pair[0].as_text() is None {
        Err(SerializeFault::Malformed { shape: first })
    } else if pair[1].as_text() is None {
        Err(SerializeFault::Malformed { shape: second })
    } else {
        Ok((pair[0].as_text()->0, pair[1].as_text()->0))
    }
}

/// The encoding of a G2 point given as JSON: `[["x_c0", "x_c1"], ["y_c0", "y_c1"], ..]`.
#[verifier::opaque]
pub open spec fn g2_encoding(coords: Seq<JsonModel>) -> Result<Seq<u8>, SerializeFault> {
    if coords.len() < 2 {
        Err(SerializeFault::Malformed { shape: Shape::G2Coordinates })
    } else if coords[0].as_items() is None {
        Err(SerializeFault::Malformed { shape: Shape::G2X })
    } else if coords[1].as_items() is None {
        Err(SerializeFault::Malformed { shape: Shape::G2Y })
    } else {
        let xs = coords[0].as_items()->0;
        let ys = coords[1].as_items()->0;
        if xs.len() < 2 || ys.len() < 2 {
            Err(SerializeFault::Malformed { shape: Shape::G2Pairs })
        } else {
            match g2_pair_texts(xs, Shape::G2XC0, Shape::G2XC1) {
                Err(e) => Err(e),
                Ok(x) => match g2_pair_texts(ys, Shape::G2YC0, Shape::G2YC1) {
                    Err(e) => Err(e),
                    Ok(y) => match field_encoding(x.0) {
                        Err(e) => Err(e),
                        Ok(x_c0) => match field_encoding(x.1) {
                            Err(e) => Err(e),
                            Ok(x_c1) => match field_encoding(y.0) {
                                Err(e) => Err(e),
                                Ok(y_c0) => match field_encoding(y.1) {
                                    Err(e) => Err(e),
                                    Ok(y_c1) => Ok(g2_layout(x_c0, x_c1, y_c0, y_c1)),
                                },
                            },
                        },
                    },
                },
            }
        }
    }
}

/// An encoded field element is 32 bytes long.
pub proof fn lemma_field_encoding_len(s: Seq<char>)
    ensures
        field_encoding(s) matches Ok(bytes) ==> bytes.len() == 32,
{
    crate::field::lemma_be_bytes_len(decimal_value(s), 32);
}

/// An encoded G1 point is 64 bytes long.
pub proof fn lemma_g1_encoding_len(coords: Seq<JsonModel>)
    ensures
        g1_encoding(coords) matches Ok(bytes) ==> bytes.len() == 64,
{
    reveal(g1_encoding);
    if coords.len() >= 2 && coords[0].as_text() is Some && coords[1].as_text() is Some {
        lemma_field_encoding_len(coords[0].as_text()->0);
        lemma_field_encoding_len(coords[1].as_text()->0);
    }
}

/// An encoded G2 point is 128 bytes long.
pub proof fn lemma_g2_encoding_len(coords: Seq<JsonModel>)
    ensures
        g2_encoding(coords) matches Ok(bytes) ==> bytes.len() == 128,
{
    reveal(g2_encoding);
    if g2_encoding(coords) is Ok {
        let xs = coords[0].as_items()->0;
        let ys = coords[1].as_items()->0;
        lemma_field_encoding_len(xs[0].as_text()->0);
        lemma_field_encoding_len(xs[1].as_text()->0);
        lemma_field_encoding_len(ys[0].as_text()->0);
        lemma_field_encoding_len(ys[1].as_text()->0);
    }
}

/// Writes the 32 bytes of `src` into `out` from `offset` on.
fn place<const N: usize>(out: [u8; N], offset: usize, src: &[u8; 32]) -> (r: [u8; N])
    requires
        offset + 32 <= N,
    ensures
        r@ == out@.subrange(0, offset as int) + src@ + out@.subrange(offset + 32, N as int),
{
    let mut r = out;
    let mut i: usize = 0;
    while i < 32
        invariant
            offset + 32 <= N,
            i <= 32,
            r@.len() == N,
            out@.len() == N,
            forall|j: int| 0 <= j < offset ==> r@[j] == out@[j],
            forall|j: int| offset + 32 <= j < N ==> r@[j] == out@[j],
            forall|j: int| 0 <= j < i ==> r@[offset + j] == src@[j],
        decreases 32 - i,
    {
        r[offset + i] = src[i];
        i += 1;
    }
    assert(r@ =~= out@.subrange(0, offset as int) + src@ + out@.subrange(offset + 32, N as int));
    r
}

/// Encodes a G1 point from its two coordinates: `x ‖ y`, 64 bytes.
pub fn encode_g1(x: &[u8; 32], y: &[u8; 32]) -> (out: [u8; 64])
    ensures
        out@ == g1_layout(x@, y@),
{
    let out = [0u8; 64];
    let out = place(out, 0, x);
    let out = place(out, 32, y);
    assert(out@ =~= g1_layout(x@, y@));
    out
}

/// Encodes a G2 point from the components of its two coordinates, each given
/// lower degree first. On the wire the higher degree comes first:
/// `x_c1 ‖ x_c0 ‖ y_c1 ‖ y_c0`, 128 bytes.
pub fn encode_g2(x_c0: &[u8; 32], x_c1: &[u8; 32], y_c0: &[u8; 32], y_c1: &[u8; 32]) -> (out: [u8;
    128])
    ensures
        out@ == g2_layout(x_c0@, x_c1@, y_c0@, y_c1@),
{
    let out = [0u8; 128];
    let out = place(out, 0, x_c1);
    let out = place(out, 32, x_c0);
    let out = place(out, 64, y_c1);
    let out = place(out, 96, y_c0);
    assert(out@ =~= g2_layout(x_c0@, x_c1@, y_c0@, y_c1@));
    out
}

/// Serializes a G1 point from `snarkjs` JSON, `["x", "y", "1"]`, to 64 bytes.
pub fn serialize_g1_from_json(coords: &[JsonValue]) -> (r: Result<[u8; 64], SerializeError>)
    ensures
        match r {
            Ok(out) => g1_encoding(views(coords@)) == Ok::<Seq<u8>, SerializeFault>(out@),
            Err(e) => g1_encoding(views(coords@)) == Err::<Seq<u8>, SerializeFault>(e@),
        },
{
    reveal(g1_encoding);
    if coords.len() < 2 {
        return Err(SerializeError::Malformed { shape: Shape::G1Coordinates });
    }
    let x_str = match coords[0].as_str() {
        Some(s) => s,
        None => { return Err(SerializeError::Malformed { shape: Shape::G1X }); },
    };
    let y_str = match coords[1].as_str() {
        Some(s) => s,
        None => { return Err(SerializeError::Malformed { shape: Shape::G1Y }); },
    };
    let x = match decimal_to_be_bytes(x_str) {
        Ok(x) => x,
        Err(e) => { return Err(e); },
    };
    let y = match decimal_to_be_bytes(y_str) {
        Ok(y) => y,
        Err(e) => { return Err(e); },
    };
    Ok(encode_g1(&x, &y))
}

/// Serializes a G2 point from `snarkjs` JSON,
/// `[["x_c0", "x_c1"], ["y_c0", "y_c1"], ["1", "0"]]`, to 128 bytes.
pub fn serialize_g2_from_json(coords: &[JsonValue]) -> (r: Result<[u8; 128], SerializeError>)
    ensures
        match r {
            Ok(out) => g2_encoding(views(coords@)) == Ok::<Seq<u8>, SerializeFault>(out@),
            Err(e) => g2_encoding(views(coords@)) == Err::<Seq<u8>, SerializeFault>(e@),
        },
{
    reveal(g2_encoding);
    if coords.len() < 2 {
        return Err(SerializeError::Malformed { shape: Shape::G2Coordinates });
    }
    let x_pair = match coords[0].as_array() {
        Some(p) => p,
        None => { return Err(SerializeError::Malformed { shape: Shape::G2X }); },
    };
    let y_pair = match coords[1].as_array() {
        Some(p) => p,
        None => { return Err(SerializeError::Malformed { shape: Shape::G2Y }); },
    };
    if x_pair.len() < 2 || y_pair.len() < 2 {
        return Err(SerializeError::Malformed { shape: Shape::G2Pairs });
    }
    let x_c0_str = match x_pair[0].as_str() {
        Some(s) => s,
        None => { return Err(SerializeError::Malformed { shape: Shape::G2XC0 }); },
    };
    let x_c1_str = match x_pair[1].as_str() {
        Some(s) => s,
        None => { return Err(SerializeError::Malformed { shape: Shape::G2XC1 }); },
    };
    let y_c0_str = match y_pair[0].as_str() {
        Some(s) => s,
        None => { return Err(SerializeError::Malformed { shape: Shape::G2YC0 }); },
    };
    let y_c1_str = match y_pair[1].as_str() {
        Some(s) => s,
        None => { return Err(SerializeError::Malformed { shape: Shape::G2YC1 }); },
    };
    let x_c0 = match decimal_to_be_bytes(x_c0_str) {
        Ok(v) => v,
        Err(e) => { return Err(e); },
    };
    let x_c1 = match decimal_to_be_bytes(x_c1_str) {
        Ok(v) => v,
        Err(e) => { return Err(e); },
    };
    let y_c0 = match decimal_to_be_bytes(y_c0_str) {
        Ok(v) => v,
        Err(e) => { return Err(e); },
    };
    let y_c1 = match decimal_to_be_bytes(y_c1_str) {
        Ok(v) => v,
        Err(e) => { return Err(e); },
    };
    Ok(encode_g2(&x_c0, &x_c1, &y_c0, &y_c1))
}

/// The encoding of a proof given as `snarkjs` JSON: `A ‖ B ‖ C` with `A` and
/// `C` in G1 and `B` in G2.
pub open spec fn proof_encoding(doc: JsonModel) -> Result<Seq<u8>, SerializeFault> {
    if doc.member_items("pi_a"@) is None {
        Err(SerializeFault::Malformed { shape: Shape::ProofA })
    } else if doc.member_items("pi_b"@) is None {
        Err(SerializeFault::Malformed { shape: Shape::ProofB })
    } else if doc.member_items("pi_c"@) is None {
        Err(SerializeFault::Malformed { shape: Shape::ProofC })
    } else {
        match g1_encoding(doc.member_items("pi_a"@)->0) {
            Err(e) => Err(e),
            Ok(a) => match g2_encoding(doc.member_items("pi_b"@)->0) {
                Err(e) => Err(e),
                Ok(b) => match g1_encoding(doc.member_items("pi_c"@)->0) {
                    Err(e) => Err(e),
                    Ok(c) => Ok(a + b + c),
                },
            },
        }
    }
}

/// The encodings of the first `upto` points of a key's `IC` list, one after
/// the other; the first entry that cannot be encoded decides the error.
pub open spec fn ic_encoding(ic: Seq<JsonModel>, upto: nat) -> Result<Seq<u8>, SerializeFault>
    decreases upto,
{
    if upto == 0 {
        Ok(Seq::empty())
    } else {
        match ic_encoding(ic, (upto - 1) as nat) {
            Err(e) => Err(e),
            Ok(before) => match ic[upto - 1].as_items() {
                None => Err(SerializeFault::IcEntry { index: (upto - 1) as usize }),
                Some(coords) => match g1_encoding(coords) {
                    Err(e) => Err(e),
                    Ok(point) => Ok(before + point),
                },
            },
        }
    }
}

/// The fixed part of an encoded key: `alpha ‖ beta ‖ gamma ‖ delta`, 448 bytes.
#[verifier::opaque]
pub open spec fn vk_head_encoding(doc: JsonModel) -> Result<Seq<u8>, SerializeFault> {
    if doc.member_items("vk_alpha_1"@) is None {
        Err(SerializeFault::Malformed { shape: Shape::KeyAlpha })
    } else if doc.member_items("vk_beta_2"@) is None {
        Err(SerializeFault::Malformed { shape: Shape::KeyBeta })
    } else if doc.member_items("vk_gamma_2"@) is None {
        Err(SerializeFault::Malformed { shape: Shape::KeyGamma })
    } else if doc.member_items("vk_delta_2"@) is None {
        Err(SerializeFault::Malformed { shape: Shape::KeyDelta })
    } else if doc.member_items("IC"@) is None {
        Err(SerializeFault::Malformed { shape: Shape::KeyIc })
    } else {
        match g1_encoding(doc.member_items("vk_alpha_1"@)->0) {
            Err(e) => Err(e),
            Ok(alpha) => match g2_encoding(doc.member_items("vk_beta_2"@)->0) {
                Err(e) => Err(e),
                Ok(beta) => match g2_encoding(doc.member_items("vk_gamma_2"@)->0) {
                    Err(e) => Err(e),
                    Ok(gamma) => match g2_encoding(doc.member_items("vk_delta_2"@)->0) {
                        Err(e) => Err(e),
                        Ok(delta) => Ok(alpha + beta + gamma + delta),
                    },
                },
            },
        }
    }
}

/// The encoding of a verification key given as `snarkjs` JSON:
/// `alpha ‖ beta ‖ gamma ‖ delta ‖ count ‖ IC[0] ‖ IC[1] ‖ …`, the count as
/// four bytes, big-endian.
pub open spec fn vk_encoding(doc: JsonModel) -> Result<Seq<u8>, SerializeFault> {
    match vk_head_encoding(doc) {
        Err(e) => Err(e),
        Ok(head) => {
            let ic = doc.member_items("IC"@)->0;
            if ic.len() > u32::MAX {
                Err(SerializeFault::IcCount { count: ic.len() as usize })
            } else {
                match ic_encoding(ic, ic.len()) {
                    Err(e) => Err(e),
                    Ok(points) => Ok(head + be_bytes(ic.len(), 4) + points),
                }
            }
        },
    }
}

/// The encodings of the first `upto` public inputs; the first entry that
/// cannot be encoded decides the error.
pub open spec fn inputs_encoding(items: Seq<JsonModel>, upto: nat) -> Result<
    Seq<Seq<u8>>,
    SerializeFault,
>
    decreases upto,
{
    if upto == 0 {
        Ok(Seq::empty())
    } else {
        match inputs_encoding(items, (upto - 1) as nat) {
            Err(e) => Err(e),
            Ok(before) => match items[upto - 1].as_text() {
                None => Err(SerializeFault::PublicInput { index: (upto - 1) as usize }),
                Some(text) => match field_encoding(text) {
                    Err(e) => Err(e),
                    Ok(element) => Ok(before.push(element)),
                },
            },
        }
    }
}

/// The encoding of public inputs given as `snarkjs` JSON, `["a", "b", …]`: one
/// field element for each.
pub open spec fn public_inputs_encoding(doc: JsonModel) -> Result<Seq<Seq<u8>>, SerializeFault> {
    match doc.as_items() {
        None => Err(SerializeFault::Malformed { shape: Shape::PublicInputs }),
        Some(items) => inputs_encoding(items, items.len()),
    }
}

/// An error among the first points of an `IC` list is the error of every
/// longer part of it.
pub proof fn lemma_ic_error_stays(ic: Seq<JsonModel>, k: nat, n: nat)
    requires
        k <= n,
        ic_encoding(ic, k) is Err,
    ensures
        ic_encoding(ic, n) == ic_encoding(ic, k),
    decreases n,
{
    if k < n {
        lemma_ic_error_stays(ic, k, (n - 1) as nat);
    }
}

/// An error among the first public inputs is the error of every longer part
/// of the list.
pub proof fn lemma_inputs_error_stays(items: Seq<JsonModel>, k: nat, n: nat)
    requires
        k <= n,
        inputs_encoding(items, k) is Err,
    ensures
        inputs_encoding(items, n) == inputs_encoding(items, k),
    decreases n,
{
    if k < n {
        lemma_inputs_error_stays(items, k, (n - 1) as nat);
    }
}

/// `upto` encoded points take `64 · upto` bytes.
pub proof fn lemma_ic_encoding_len(ic: Seq<JsonModel>, upto: nat)
    ensures
        ic_encoding(ic, upto) matches Ok(bytes) ==> bytes.len() == 64 * upto,
    decreases upto,
{
    if upto > 0 {
        lemma_ic_encoding_len(ic, (upto - 1) as nat);
        if ic_encoding(ic, upto) is Ok {
            lemma_g1_encoding_len(ic[upto - 1].as_items()->0);
        }
    }
}

/// An encoded proof is exactly 256 bytes long.
pub proof fn lemma_proof_encoding_len(doc: JsonModel)
    ensures
        proof_encoding(doc) matches Ok(bytes) ==> bytes.len() == 256,
{
    if proof_encoding(doc) is Ok {
        lemma_g1_encoding_len(doc.member_items("pi_a"@)->0);
        lemma_g2_encoding_len(doc.member_items("pi_b"@)->0);
        lemma_g1_encoding_len(doc.member_items("pi_c"@)->0);
    }
}

/// The fixed part of an encoded key is 448 bytes long, and a key that has
/// one has an `IC` list.
pub proof fn lemma_vk_head_len(doc: JsonModel)
    ensures
        vk_head_encoding(doc) matches Ok(head) ==> head.len() == 448 && doc.member_items("IC"@)
            is Some,
{
    reveal(vk_head_encoding);
    if vk_head_encoding(doc) is Ok {
        lemma_g1_encoding_len(doc.member_items("vk_alpha_1"@)->0);
        lemma_g2_encoding_len(doc.member_items("vk_beta_2"@)->0);
        lemma_g2_encoding_len(doc.member_items("vk_gamma_2"@)->0);
        lemma_g2_encoding_len(doc.member_items("vk_delta_2"@)->0);
    }
}

/// An encoded key with `count` points in its `IC` list is `452 + 64 · count`
/// bytes long, and its four bytes from offset 448 on are `count`, big-endian.
pub proof fn lemma_vk_encoding_layout(doc: JsonModel)
    ensures
        vk_encoding(doc) matches Ok(bytes) ==> {
            let count = doc.member_items("IC"@)->0.len();
            &&& count <= u32::MAX
            &&& bytes.len() == 452 + 64 * count
            &&& bytes.subrange(448, 452) == be_bytes(count, 4)
            &&& be_value(bytes.subrange(448, 452)) == count
        },
{
    if vk_encoding(doc) is Ok {
        let ic = doc.member_items("IC"@)->0;
        let count = ic.len();
        let head = vk_head_encoding(doc)->Ok_0;
        let points = ic_encoding(ic, count)->Ok_0;
        let bytes = vk_encoding(doc)->Ok_0;
        lemma_vk_head_len(doc);
        lemma_ic_encoding_len(ic, count);
        crate::field::lemma_be_bytes_len(count, 4);
        assert(head.len() == 448);
        assert(bytes.subrange(448, 452) =~= be_bytes(count, 4));
        assert(count < crate::field::exp256(4)) by {
            reveal_with_fuel(crate::field::exp256, 5);
        }
        crate::field::lemma_be_value_of_bytes(count, 4);
    }
}

/// The four bytes of `n`, most significant first.
pub fn u32_to_be_bytes(n: u32) -> (out: [u8; 4])
    ensures
        out@ == be_bytes(n as nat, 4),
{
    let b3 = (n % 256) as u8;
    let n1 = n / 256;
    let b2 = (n1 % 256) as u8;
    let n2 = n1 / 256;
    let b1 = (n2 % 256) as u8;
    let n3 = n2 / 256;
    let b0 = (n3 % 256) as u8;
    let out = [b0, b1, b2, b3];
    proof {
        reveal_with_fuel(be_bytes, 5);
        assert(out@ =~= be_bytes(n as nat, 4));
    }
    out
}

/// Serializes a `snarkjs` Groth16 proof, `{"pi_a": .., "pi_b": .., "pi_c": ..}`,
/// to the 256 bytes `A ‖ B ‖ C`.
pub fn serialize_proof_from_snarkjs(proof_json: &JsonValue) -> (r: Result<Vec<u8>, SerializeError>)
    ensures
        match r {
            Ok(out) => proof_encoding(proof_json@) == Ok::<Seq<u8>, SerializeFault>(out@)
                && out@.len() == 256,
            Err(e) => proof_encoding(proof_json@) == Err::<Seq<u8>, SerializeFault>(e@),
        },
{
    let pi_a = match proof_json.get_array("pi_a") {
        Some(a) => a,
        None => { return Err(SerializeError::Malformed { shape: Shape::ProofA }); },
    };
    let pi_b = match proof_json.get_array("pi_b") {
        Some(a) => a,
        None => { return Err(SerializeError::Malformed { shape: Shape::ProofB }); },
    };
    let pi_c = match proof_json.get_array("pi_c") {
        Some(a) => a,
        None => { return Err(SerializeError::Malformed { shape: Shape::ProofC }); },
    };
    let a = match serialize_g1_from_json(pi_a.as_slice()) {
        Ok(v) => v,
        Err(e) => { return Err(e); },
    };
    let b = match serialize_g2_from_json(pi_b.as_slice()) {
        Ok(v) => v,
        Err(e) => { return Err(e); },
    };
    let c = match serialize_g1_from_json(pi_c.as_slice()) {
        Ok(v) => v,
        Err(e) => { return Err(e); },
    };
    let mut out: Vec<u8> = Vec::with_capacity(256);
    out.extend_from_slice(a.as_slice());
    out.extend_from_slice(b.as_slice());
    out.extend_from_slice(c.as_slice());
    proof {
        assert(out@ =~= a@ + b@ + c@);
        lemma_proof_encoding_len(proof_json@);
    }
    Ok(out)
}

/// Serializes the fixed part of a verification key: `alpha ‖ beta ‖ gamma ‖ delta`.
fn serialize_vk_head(vk_json: &JsonValue) -> (r: Result<Vec<u8>, SerializeError>)
    ensures
        match r {
            Ok(out) => vk_head_encoding(vk_json@) == Ok::<Seq<u8>, SerializeFault>(out@),
            Err(e) => vk_head_encoding(vk_json@) == Err::<Seq<u8>, SerializeFault>(e@),
        },
{
    reveal(vk_head_encoding);
    let alpha = match vk_json.get_array("vk_alpha_1") {
        Some(a) => a,
        None => { return Err(SerializeError::Malformed { shape: Shape::KeyAlpha }); },
    };
    let beta = match vk_json.get_array("vk_beta_2") {
        Some(a) => a,
        None => { return Err(SerializeError::Malformed { shape: Shape::KeyBeta }); },
    };
    let gamma = match vk_json.get_array("vk_gamma_2") {
        Some(a) => a,
        None => { return Err(SerializeError::Malformed { shape: Shape::KeyGamma }); },
    };
    let delta = match vk_json.get_array("vk_delta_2") {
        Some(a) => a,
        None => { return Err(SerializeError::Malformed { shape: Shape::KeyDelta }); },
    };
    if vk_json.get_array("IC").is_none() {
        return Err(SerializeError::Malformed { shape: Shape::KeyIc });
    }
    let alpha_bytes = match serialize_g1_from_json(alpha.as_slice()) {
        Ok(v) => v,
        Err(e) => { return Err(e); },
    };
    let beta_bytes = match serialize_g2_from_json(beta.as_slice()) {
        Ok(v) => v,
        Err(e) => { return Err(e); },
    };
    let gamma_bytes = match serialize_g2_from_json(gamma.as_slice()) {
        Ok(v) => v,
        Err(e) => { return Err(e); },
    };
    let delta_bytes = match serialize_g2_from_json(delta.as_slice()) {
        Ok(v) => v,
        Err(e) => { return Err(e); },
    };
    let mut out: Vec<u8> = Vec::new();
    out.extend_from_slice(alpha_bytes.as_slice());
    out.extend_from_slice(beta_bytes.as_slice());
    out.extend_from_slice(gamma_bytes.as_slice());
    out.extend_from_slice(delta_bytes.as_slice());
    assert(out@ =~= alpha_bytes@ + beta_bytes@ + gamma_bytes@ + delta_bytes@);
    Ok(out)
}

/// Serializes the points of an `IC` list, one after the other.
fn serialize_ic(ic: &Vec<JsonValue>) -> (r: Result<Vec<u8>, SerializeError>)
    ensures
        match r {
            Ok(out) => ic_encoding(views(ic@), ic@.len()) == Ok::<Seq<u8>, SerializeFault>(out@),
            Err(e) => ic_encoding(views(ic@), ic@.len()) == Err::<Seq<u8>, SerializeFault>(e@),
        },
{
    let ghost points = views(ic@);
    let mut out: Vec<u8> = Vec::new();
    let mut i: usize = 0;
    while i < ic.len()
        invariant
            i <= ic@.len(),
            points == views(ic@),
            ic_encoding(points, i as nat) == Ok::<Seq<u8>, SerializeFault>(out@),
        decreases ic@.len() - i,
    {
        let entry = match ic[i].as_array() {
            Some(a) => a,
            None => {
                proof {
                    lemma_ic_error_stays(points, (i + 1) as nat, ic@.len());
                }
                return Err(SerializeError::IcEntry { index: i });
            },
        };
        let point = match serialize_g1_from_json(entry.as_slice()) {
            Ok(v) => v,
            Err(e) => {
                proof {
                    lemma_ic_error_stays(points, (i + 1) as nat, ic@.len());
                }
                return Err(e);
            },
        };
        let ghost before = out@;
        out.extend_from_slice(point.as_slice());
        i += 1;
        assert(out@ =~= before + point@);
    }
    Ok(out)
}

/// Serializes a `snarkjs` verification key to
/// `alpha ‖ beta ‖ gamma ‖ delta ‖ count ‖ IC[0] ‖ …`.
pub fn serialize_vk_from_snarkjs(vk_json: &JsonValue) -> (r: Result<Vec<u8>, SerializeError>)
    ensures
        match r {
            Ok(out) => {
                let count = vk_json@.member_items("IC"@)->0.len();
                &&& vk_encoding(vk_json@) == Ok::<Seq<u8>, SerializeFault>(out@)
                &&& out@.len() == 452 + 64 * count
                &&& be_value(out@.subrange(448, 452)) == count
            },
            Err(e) => vk_encoding(vk_json@) == Err::<Seq<u8>, SerializeFault>(e@),
        },
{
    let mut out = match serialize_vk_head(vk_json) {
        Ok(head) => head,
        Err(e) => { return Err(e); },
    };
    let ghost head = out@;
    proof {
        lemma_vk_head_len(vk_json@);
    }
    let ic = match vk_json.get_array("IC") {
        Some(a) => a,
        None => { return Err(SerializeError::Malformed { shape: Shape::KeyIc }); },
    };
    if ic.len() > 0xffff_ffff {
        return Err(SerializeError::IcCount { count: ic.len() });
    }
    let count_bytes = u32_to_be_bytes(ic.len() as u32);
    let points = match serialize_ic(ic) {
        Ok(points) => points,
        Err(e) => { return Err(e); },
    };
    out.extend_from_slice(count_bytes.as_slice());
    out.extend_from_slice(points.as_slice());
    proof {
        assert(out@ =~= head + be_bytes(ic@.len(), 4) + points@);
        lemma_vk_encoding_layout(vk_json@);
    }
    Ok(out)
}

/// Serializes `snarkjs` public inputs, `["a", "b", …]`, to one field element
/// for each.
#[verifier::loop_isolation(false)]
pub fn serialize_public_inputs_from_snarkjs(public_json: &JsonValue) -> (r: Result<
    Vec<[u8; 32]>,
    SerializeError,
>)
    ensures
        match r {
            Ok(out) => public_inputs_encoding(public_json@) == Ok::<
                Seq<Seq<u8>>,
                SerializeFault,
            >(element_bytes(out@)),
            Err(e) => public_inputs_encoding(public_json@) == Err::<Seq<Seq<u8>>, SerializeFault>(
                e@,
            ),
        },
{
    let arr = match public_json.as_array() {
        Some(a) => a,
        None => { return Err(SerializeError::Malformed { shape: Shape::PublicInputs }); },
    };
    let ghost items = views(arr@);
    let mut out: Vec<[u8; 32]> = Vec::new();
    let mut i: usize = 0;
    assert(element_bytes(out@) =~= Seq::<Seq<u8>>::empty());
    while i < arr.len()
        invariant
            i <= arr.len(),
            items == views(arr@),
            inputs_encoding(items, i as nat) == Ok::<Seq<Seq<u8>>, SerializeFault>(
                element_bytes(out@),
            ),
        decreases arr.len() - i,
    {
        let text = match arr[i].as_str() {
            Some(s) => s,
            None => {
                proof {
                    lemma_inputs_error_stays(items, (i + 1) as nat, arr.len() as nat);
                }
                return Err(SerializeError::PublicInput { index: i });
            },
        };
        let element = match decimal_to_be_bytes(text) {
            Ok(v) => v,
            Err(e) => {
                proof {
                    lemma_inputs_error_stays(items, (i + 1) as nat, arr.len() as nat);
                }
                return Err(e);
            },
        };
        let ghost before = element_bytes(out@);
        out.push(element);
        i += 1;
        assert(element_bytes(out@) =~= before.push(element@));
    }
    Ok(out)
}

} // verus!
