use stellar_zk::field::pad_to_field;
use stellar_zk::groth16::serializer::{
    decimal_to_be_bytes, encode_g1, encode_g2, serialize_g1_from_json, serialize_g2_from_json,
    serialize_proof_from_snarkjs, serialize_public_inputs_from_snarkjs, serialize_vk_from_snarkjs,
    u32_to_be_bytes, SerializeError, Shape,
};
use stellar_zk::json::JsonValue;
use stellar_zk::risc0::serializer::{serialize_seal, validate_seal, RISC0_SELECTOR};
use stellar_zk::ultrahonk::proof_convert::{
    extract_public_inputs, to_soroban_format, u32_from_be_bytes,
};
use stellar_zk::ultrahonk::serializer::serialize_vk_for_soroban;

fn text(s: &str) -> JsonValue {
    JsonValue::text(s)
}

fn texts(items: &[&str]) -> Vec<JsonValue> {
    items.iter().map(|s| JsonValue::text(s)).collect()
}

fn g1(x: &str, y: &str) -> JsonValue {
    JsonValue::array(texts(&[x, y, "1"]))
}

fn g2(x0: &str, x1: &str, y0: &str, y1: &str) -> JsonValue {
    JsonValue::array(vec![
        JsonValue::array(texts(&[x0, x1])),
        JsonValue::array(texts(&[y0, y1])),
        JsonValue::array(texts(&["1", "0"])),
    ])
}

fn object(entries: Vec<(&str, JsonValue)>) -> JsonValue {
    JsonValue::object(entries.into_iter().map(|(k, v)| (k.to_string(), v)).collect())
}

fn proof_document() -> JsonValue {
    object(vec![
        ("pi_a", g1("1", "2")),
        ("pi_b", g2("3", "4", "5", "6")),
        ("pi_c", g1("7", "8")),
        ("protocol", text("groth16")),
        ("curve", text("bn128")),
    ])
}

fn key_document(ic: Vec<JsonValue>) -> JsonValue {
    object(vec![
        ("protocol", text("groth16")),
        ("curve", text("bn128")),
        ("nPublic", JsonValue::unsigned(1)),
        ("vk_alpha_1", g1("1", "2")),
        ("vk_beta_2", g2("3", "4", "5", "6")),
        ("vk_gamma_2", g2("7", "8", "9", "10")),
        ("vk_delta_2", g2("11", "12", "13", "14")),
        ("IC", JsonValue::array(ic)),
    ])
}

#[test]
fn test_decimal_to_be_bytes_zero() {
    let bytes = decimal_to_be_bytes("0").unwrap();
    assert!(bytes.iter().all(|&b| b == 0));
}

#[test]
fn test_decimal_to_be_bytes_one() {
    let bytes = decimal_to_be_bytes("1").unwrap();
    assert_eq!(bytes[31], 1);
    assert!(bytes[..31].iter().all(|&b| b == 0));
}

#[test]
fn test_decimal_to_be_bytes_256() {
    let bytes = decimal_to_be_bytes("256").unwrap();
    assert_eq!(bytes[30], 1);
    assert_eq!(bytes[31], 0);
    assert!(bytes[..30].iter().all(|&b| b == 0));
}

#[test]
fn test_g1_serialization_size() {
    let coords = g1("1", "2");
    let bytes = serialize_g1_from_json(coords.as_array().unwrap()).unwrap();
    assert_eq!(bytes.len(), 64);
    assert_eq!(bytes[31], 1); // x = 1
    assert_eq!(bytes[63], 2); // y = 2
}

#[test]
fn test_g2_serialization_size_and_order() {
    // input order: [[x_c0, x_c1], [y_c0, y_c1], [1, 0]]
    let coords = g2("10", "20", "30", "40");
    let bytes = serialize_g2_from_json(coords.as_array().unwrap()).unwrap();
    assert_eq!(bytes.len(), 128);
    // wire order: x_c1 | x_c0 | y_c1 | y_c0
    assert_eq!(bytes[31], 20); // x_c1
    assert_eq!(bytes[63], 10); // x_c0
    assert_eq!(bytes[95], 40); // y_c1
    assert_eq!(bytes[127], 30); // y_c0
}

#[test]
fn test_proof_serialization_layout() {
    let proof = proof_document();
    let bytes = serialize_proof_from_snarkjs(&proof).unwrap();
    assert_eq!(bytes.len(), 256);
    // A starts at 0
    assert_eq!(bytes[31], 1); // A.x
    assert_eq!(bytes[63], 2); // A.y
    // B starts at 64 (G2: c1|c0|c1|c0)
    assert_eq!(bytes[95], 4); // B.x_c1
    assert_eq!(bytes[127], 3); // B.x_c0
    assert_eq!(bytes[159], 6); // B.y_c1
    assert_eq!(bytes[191], 5); // B.y_c0
    // C starts at 192
    assert_eq!(bytes[223], 7); // C.x
    assert_eq!(bytes[255], 8); // C.y
}

#[test]
fn test_vk_serialization_layout() {
    let vk = key_document(vec![g1("100", "200"), g1("300", "400")]);
    let bytes = serialize_vk_from_snarkjs(&vk).unwrap();
    // 64 + 128 + 128 + 128 + 4 + 2*64 = 580
    assert_eq!(bytes.len(), 580);

    // the count at offset 448
    let ic_count = u32::from_be_bytes([bytes[448], bytes[449], bytes[450], bytes[451]]);
    assert_eq!(ic_count, 2);

    // IC[0] starts at 452
    assert_eq!(bytes[483], 100); // IC[0].x
    assert_eq!(bytes[515], 200); // IC[0].y
}

#[test]
fn test_public_inputs_serialization() {
    let inputs = JsonValue::array(texts(&["42", "1771"]));
    let serialized = serialize_public_inputs_from_snarkjs(&inputs).unwrap();
    assert_eq!(serialized.len(), 2);
    assert_eq!(serialized[0][31], 42);
    // 1771 = 0x06EB
    assert_eq!(serialized[1][30], 0x06);
    assert_eq!(serialized[1][31], 0xEB);
}

#[test]
fn test_large_field_element() {
    // the modulus of the BN254 field has 254 bits
    let large = "21888242871839275222246405745257275088696311157297823662689037894645226208583";
    let bytes = decimal_to_be_bytes(large).unwrap();
    assert_eq!(bytes.len(), 32);
    assert!(!bytes.iter().all(|&b| b == 0));
}

#[test]
fn test_decimal_overflow_exceeds_32_bytes() {
    // 2^256
    let too_large =
        "115792089237316195423570985008687907853269984665640564039457584007913129639936";
    let result = decimal_to_be_bytes(too_large);
    assert!(result.is_err());
    assert!(result.unwrap_err().to_string().contains("too large"));
}

#[test]
fn test_decimal_invalid_input() {
    assert!(decimal_to_be_bytes("not_a_number").is_err());
    assert!(decimal_to_be_bytes("").is_err());
    assert!(decimal_to_be_bytes("-1").is_err());
}

#[test]
fn test_g1_empty_coords() {
    let coords: Vec<JsonValue> = vec![];
    let result = serialize_g1_from_json(&coords);
    assert!(result.is_err());
}

#[test]
fn test_g2_non_array_components() {
    // G2 wants arrays for x and y, not plain strings
    let coords = JsonValue::array(texts(&["10", "20", "1"]));
    let result = serialize_g2_from_json(coords.as_array().unwrap());
    assert!(result.is_err());
}

#[test]
fn test_proof_missing_field() {
    let proof = object(vec![("pi_a", g1("1", "2")), ("pi_c", g1("7", "8"))]);
    let result = serialize_proof_from_snarkjs(&proof);
    assert!(result.is_err());
}

#[test]
fn test_public_inputs_empty_array() {
    let inputs = JsonValue::array(vec![]);
    let result = serialize_public_inputs_from_snarkjs(&inputs).unwrap();
    assert!(result.is_empty());
}

#[test]
fn test_public_inputs_non_string_element() {
    let inputs = JsonValue::array(vec![JsonValue::unsigned(42)]);
    let result = serialize_public_inputs_from_snarkjs(&inputs);
    assert!(result.is_err());
}

#[test]
fn test_serialize_seal() {
    let proof = [0xABu8; 256];
    let seal = serialize_seal(&RISC0_SELECTOR, &proof);
    assert_eq!(seal.len(), 260);
    assert_eq!(&seal[..4], &RISC0_SELECTOR);
    assert_eq!(&seal[4..], &proof);
}

#[test]
fn test_validate_seal_valid() {
    let mut seal = RISC0_SELECTOR.to_vec();
    seal.extend_from_slice(&[0u8; 256]);
    assert!(validate_seal(&seal));
}

#[test]
fn test_validate_seal_wrong_selector() {
    let mut seal = vec![0x00, 0x00, 0x00, 0x00];
    seal.extend_from_slice(&[0u8; 256]);
    assert!(!validate_seal(&seal));
}

#[test]
fn test_validate_seal_wrong_length() {
    let mut seal = RISC0_SELECTOR.to_vec();
    seal.extend_from_slice(&[0u8; 128]); // too short
    assert!(!validate_seal(&seal));
}

#[test]
fn test_validate_seal_empty() {
    assert!(!validate_seal(&[]));
}

#[test]
fn test_extract_public_inputs_empty() {
    assert_eq!(extract_public_inputs(&[]), Vec::<[u8; 32]>::new());
}

#[test]
fn test_extract_public_inputs_short_header() {
    assert_eq!(extract_public_inputs(&[0, 0, 1]), Vec::<[u8; 32]>::new());
}

#[test]
fn test_extract_public_inputs_zero_count() {
    let data = [0u8, 0, 0, 0];
    let result = extract_public_inputs(&data);
    assert_eq!(result.len(), 0);
}

#[test]
fn test_extract_public_inputs_one() {
    // count = 1, followed by one input of 32 bytes
    let mut data = vec![0u8, 0, 0, 1];
    let mut input = [0u8; 32];
    input[31] = 42;
    data.extend_from_slice(&input);
    // the proof's own bytes
    data.extend_from_slice(&[0xff; 64]);

    let result = extract_public_inputs(&data);
    assert_eq!(result.len(), 1);
    assert_eq!(result[0][31], 42);
}

#[test]
fn test_extract_public_inputs_two() {
    let mut data = vec![0u8, 0, 0, 2];
    let mut input1 = [0u8; 32];
    input1[0] = 0xAA;
    data.extend_from_slice(&input1);
    let mut input2 = [0u8; 32];
    input2[0] = 0xBB;
    data.extend_from_slice(&input2);

    let result = extract_public_inputs(&data);
    assert_eq!(result.len(), 2);
    assert_eq!(result[0][0], 0xAA);
    assert_eq!(result[1][0], 0xBB);
}

#[test]
fn test_extract_public_inputs_truncated() {
    // the count says 3 but only one input is there in full
    let mut data = vec![0u8, 0, 0, 3];
    data.extend_from_slice(&[0x11; 32]);
    data.extend_from_slice(&[0x22; 16]);

    let result = extract_public_inputs(&data);
    assert_eq!(result.len(), 1);
    assert_eq!(result[0], [0x11; 32]);
}

#[test]
fn test_extract_public_inputs_max_count_small_buffer() {
    // the count is u32::MAX but the buffer is tiny
    let data = vec![0xFF, 0xFF, 0xFF, 0xFF, 0x00, 0x00, 0x00, 0x00];
    let result = extract_public_inputs(&data);
    assert!(result.is_empty());
}

#[test]
fn encoding_keeps_the_order_of_the_numbers() {
    let numbers = [
        "0",
        "1",
        "255",
        "256",
        "65535",
        "65536",
        "4294967296",
        "21888242871839275222246405745257275088696311157297823662689037894645226208583",
        "115792089237316195423570985008687907853269984665640564039457584007913129639935",
    ];
    let encoded: Vec<[u8; 32]> = numbers.iter().map(|n| decimal_to_be_bytes(n).unwrap()).collect();
    for pair in encoded.windows(2) {
        assert!(pair[0] < pair[1]);
    }
}

#[test]
fn largest_field_element_is_all_ones() {
    // 2^256 - 1
    let max = "115792089237316195423570985008687907853269984665640564039457584007913129639935";
    assert_eq!(decimal_to_be_bytes(max).unwrap(), [0xff; 32]);
}

#[test]
fn decimal_with_sign_and_underscores() {
    let plain = decimal_to_be_bytes("1000").unwrap();
    assert_eq!(decimal_to_be_bytes("+1000").unwrap(), plain);
    assert_eq!(decimal_to_be_bytes("1_000").unwrap(), plain);
    assert_eq!(decimal_to_be_bytes("0001000").unwrap(), plain);
    assert_eq!(plain[30], 0x03);
    assert_eq!(plain[31], 0xe8);
    assert!(decimal_to_be_bytes("_1000").is_err());
    assert!(decimal_to_be_bytes("++1").is_err());
    assert!(decimal_to_be_bytes("+").is_err());
    assert!(decimal_to_be_bytes("1 ").is_err());
    assert!(decimal_to_be_bytes("0x10").is_err());
    assert!(decimal_to_be_bytes("١٢").is_err());
}

#[test]
fn decimal_errors_tell_the_input_and_the_reason() {
    let error = decimal_to_be_bytes("").unwrap_err();
    assert_eq!(
        error.to_string(),
        "invalid decimal: : cannot parse integer from empty string"
    );
    let error = decimal_to_be_bytes("12a").unwrap_err();
    assert_eq!(
        error.to_string(),
        "invalid decimal: 12a: invalid digit found in string"
    );
    assert!(matches!(error, SerializeError::InvalidDecimal { .. }));
    let error = decimal_to_be_bytes(
        "115792089237316195423570985008687907853269984665640564039457584007913129639936",
    )
    .unwrap_err();
    assert!(matches!(error, SerializeError::TooLarge { .. }));
    assert_eq!(
        error.to_string(),
        "value too large for 32 bytes: 115792089237316195423570985008687907853269984665640564039457584007913129639936"
    );
}

#[test]
fn padding_puts_the_zeros_in_front() {
    assert_eq!(pad_to_field(&[]), Some([0u8; 32]));
    let padded = pad_to_field(&[1, 2, 3]).unwrap();
    assert_eq!(&padded[29..], &[1, 2, 3]);
    assert!(padded[..29].iter().all(|&b| b == 0));
    assert_eq!(pad_to_field(&[7u8; 32]), Some([7u8; 32]));
    assert_eq!(pad_to_field(&[7u8; 33]), None);
}

#[test]
fn points_from_coordinates() {
    let a = [1u8; 32];
    let b = [2u8; 32];
    let c = [3u8; 32];
    let d = [4u8; 32];
    let p = encode_g1(&a, &b);
    assert_eq!(&p[..32], &a);
    assert_eq!(&p[32..], &b);
    // components are given lower degree first and written higher degree first
    let q = encode_g2(&a, &b, &c, &d);
    assert_eq!(&q[..32], &b);
    assert_eq!(&q[32..64], &a);
    assert_eq!(&q[64..96], &d);
    assert_eq!(&q[96..], &c);
}

#[test]
fn g1_errors_in_order() {
    let one = texts(&["1"]);
    assert!(matches!(
        serialize_g1_from_json(&one),
        Err(SerializeError::Malformed { shape: Shape::G1Coordinates })
    ));
    let bad_x = vec![JsonValue::unsigned(1), JsonValue::Null];
    assert!(matches!(
        serialize_g1_from_json(&bad_x),
        Err(SerializeError::Malformed { shape: Shape::G1X })
    ));
    let bad_y = vec![text("x"), JsonValue::Bool(true)];
    assert!(matches!(
        serialize_g1_from_json(&bad_y),
        Err(SerializeError::Malformed { shape: Shape::G1Y })
    ));
    // both are strings: the decimals are read in order
    let bad_decimals = texts(&["x", "y"]);
    let error = serialize_g1_from_json(&bad_decimals).unwrap_err();
    assert_eq!(error.to_string(), "invalid decimal: x: invalid digit found in string");
    assert_eq!(
        serialize_g1_from_json(&bad_x).unwrap_err().to_string(),
        "G1.x must be a string"
    );
}

#[test]
fn g2_errors_in_order() {
    let short = vec![JsonValue::array(texts(&["1", "2"]))];
    assert!(matches!(
        serialize_g2_from_json(&short),
        Err(SerializeError::Malformed { shape: Shape::G2Coordinates })
    ));
    let y_no_array = vec![JsonValue::array(texts(&["1", "2"])), text("3")];
    assert!(matches!(
        serialize_g2_from_json(&y_no_array),
        Err(SerializeError::Malformed { shape: Shape::G2Y })
    ));
    let short_pair = vec![JsonValue::array(texts(&["1"])), JsonValue::array(texts(&["3", "4"]))];
    assert!(matches!(
        serialize_g2_from_json(&short_pair),
        Err(SerializeError::Malformed { shape: Shape::G2Pairs })
    ));
    let bad_c1 = vec![
        JsonValue::array(vec![text("1"), JsonValue::Null]),
        JsonValue::array(texts(&["3", "4"])),
    ];
    assert!(matches!(
        serialize_g2_from_json(&bad_c1),
        Err(SerializeError::Malformed { shape: Shape::G2XC1 })
    ));
    let bad_y0 = vec![
        JsonValue::array(texts(&["1", "2"])),
        JsonValue::array(vec![JsonValue::Null, text("4")]),
    ];
    assert!(matches!(
        serialize_g2_from_json(&bad_y0),
        Err(SerializeError::Malformed { shape: Shape::G2YC0 })
    ));
}

#[test]
fn proof_errors_name_the_part() {
    assert_eq!(
        serialize_proof_from_snarkjs(&JsonValue::Null).unwrap_err().to_string(),
        "proof.pi_a must be an array"
    );
    let no_b = object(vec![("pi_a", g1("1", "2")), ("pi_c", g1("7", "8"))]);
    assert_eq!(
        serialize_proof_from_snarkjs(&no_b).unwrap_err().to_string(),
        "proof.pi_b must be an array"
    );
    let no_c = object(vec![("pi_a", g1("1", "2")), ("pi_b", g2("3", "4", "5", "6"))]);
    assert_eq!(
        serialize_proof_from_snarkjs(&no_c).unwrap_err().to_string(),
        "proof.pi_c must be an array"
    );
}

#[test]
fn key_length_goes_by_the_count() {
    for count in [0usize, 1, 2, 5] {
        let ic = (0..count).map(|i| g1(&i.to_string(), "1")).collect();
        let bytes = serialize_vk_from_snarkjs(&key_document(ic)).unwrap();
        assert_eq!(bytes.len(), 452 + 64 * count);
        assert_eq!(&bytes[448..452], &(count as u32).to_be_bytes());
    }
}

#[test]
fn key_layout_in_full() {
    let bytes = serialize_vk_from_snarkjs(&key_document(vec![g1("100", "200")])).unwrap();
    // alpha
    assert_eq!(bytes[31], 1);
    assert_eq!(bytes[63], 2);
    // beta
    assert_eq!(bytes[64 + 31], 4);
    assert_eq!(bytes[64 + 63], 3);
    assert_eq!(bytes[64 + 95], 6);
    assert_eq!(bytes[64 + 127], 5);
    // gamma
    assert_eq!(bytes[192 + 31], 8);
    assert_eq!(bytes[192 + 63], 7);
    assert_eq!(bytes[192 + 95], 10);
    assert_eq!(bytes[192 + 127], 9);
    // delta
    assert_eq!(bytes[320 + 31], 12);
    assert_eq!(bytes[320 + 63], 11);
    assert_eq!(bytes[320 + 95], 14);
    assert_eq!(bytes[320 + 127], 13);
    // IC
    assert_eq!(bytes[452 + 31], 100);
    assert_eq!(bytes[452 + 63], 200);
}

#[test]
fn key_errors() {
    assert_eq!(
        serialize_vk_from_snarkjs(&JsonValue::Null).unwrap_err().to_string(),
        "vk.vk_alpha_1 must be an array"
    );
    let no_ic = object(vec![
        ("vk_alpha_1", g1("1", "2")),
        ("vk_beta_2", g2("3", "4", "5", "6")),
        ("vk_gamma_2", g2("7", "8", "9", "10")),
        ("vk_delta_2", g2("11", "12", "13", "14")),
    ]);
    assert_eq!(
        serialize_vk_from_snarkjs(&no_ic).unwrap_err().to_string(),
        "vk.IC must be an array"
    );
    let bad_entry = key_document(vec![g1("1", "2"), text("x")]);
    let error = serialize_vk_from_snarkjs(&bad_entry).unwrap_err();
    assert!(matches!(error, SerializeError::IcEntry { index: 1 }));
    assert_eq!(error.to_string(), "IC[1] must be an array");
}

#[test]
fn public_input_errors() {
    assert_eq!(
        serialize_public_inputs_from_snarkjs(&text("x")).unwrap_err().to_string(),
        "public inputs must be an array"
    );
    let second_bad = JsonValue::array(vec![text("1"), JsonValue::Null, text("x")]);
    let error = serialize_public_inputs_from_snarkjs(&second_bad).unwrap_err();
    assert!(matches!(error, SerializeError::PublicInput { index: 1 }));
    assert_eq!(error.to_string(), "public_input[1] must be a string");
    let count = SerializeError::IcCount { count: 5_000_000_000 };
    assert!(count.to_string().contains("5000000000"));
}

#[test]
fn four_bytes_of_a_count() {
    assert_eq!(u32_to_be_bytes(0), [0, 0, 0, 0]);
    assert_eq!(u32_to_be_bytes(0x0102_0304), [1, 2, 3, 4]);
    assert_eq!(u32_to_be_bytes(u32::MAX), [0xff; 4]);
    assert_eq!(u32_from_be_bytes(1, 2, 3, 4), 0x0102_0304);
    assert_eq!(u32_from_be_bytes(0xff, 0xff, 0xff, 0xff), u32::MAX);
}

#[test]
fn seal_is_valid_only_with_selector_and_length() {
    let sealed = serialize_seal(&RISC0_SELECTOR, &[0u8; 256]);
    assert!(validate_seal(&sealed));
    assert!(!validate_seal(&serialize_seal(&RISC0_SELECTOR, &[0u8; 255])));
    assert!(!validate_seal(&serialize_seal(&RISC0_SELECTOR, &[0u8; 257])));
    assert!(!validate_seal(&serialize_seal(&[0x31, 0x0f, 0xe5, 0x99], &[0u8; 256])));
    assert!(!validate_seal(&RISC0_SELECTOR));
    assert_eq!(RISC0_SELECTOR, [0x31, 0x0f, 0xe5, 0x98]);
}

#[test]
fn inputs_beyond_the_count_are_not_taken() {
    // the count says one, the buffer has room for two
    let mut data = vec![0u8, 0, 0, 1];
    data.extend_from_slice(&[0x11; 32]);
    data.extend_from_slice(&[0x22; 32]);
    let result = extract_public_inputs(&data);
    assert_eq!(result, vec![[0x11; 32]]);
}

#[test]
fn bytes_are_passed_on_as_they_are() {
    assert_eq!(to_soroban_format(&[1, 2, 3], &[9]), vec![1, 2, 3]);
    assert_eq!(serialize_vk_for_soroban(&[4, 5]), vec![4, 5]);
    assert!(to_soroban_format(&[], &[]).is_empty());
}
