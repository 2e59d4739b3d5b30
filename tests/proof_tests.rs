use darklake_sdk::commitment::{
    bytes_to_bigint, commit, compute_poseidon_hash, compute_poseidon_hash_with_salt,
    generate_random_salt,
};
use darklake_sdk::encoding::{
    bigint_to_bytes_be, from_32_byte_buffer, to_32_byte_buffer, u64_array_to_u8_array_le, U256,
};
use darklake_sdk::proof_format::{
    convert_proof_to_solana_proof, G1Point, G2Point, ProofPoints, PublicProofInputs,
};
use num_bigint::BigUint;

fn u256_of(v: &BigUint) -> U256 {
    let bytes = v.to_bytes_le();
    let mut le = [0u8; 32];
    le[..bytes.len()].copy_from_slice(&bytes);
    U256 { le }
}

fn decimal_of(v: &U256) -> String {
    BigUint::from_bytes_le(&v.le).to_string()
}

fn limbs(decimal: &str) -> [u64; 4] {
    let digits = BigUint::parse_bytes(decimal.as_bytes(), 10).unwrap().to_u64_digits();
    let mut out = [0u64; 4];
    out[..digits.len()].copy_from_slice(&digits);
    out
}

#[test]
fn test_compute_poseidon_hash() {
    assert!(compute_poseidon_hash(1000u64).is_some());
    assert!(compute_poseidon_hash(0u64).is_some());
    assert!(compute_poseidon_hash(u64::MAX).is_some());
    assert!(compute_poseidon_hash(123456789u64).is_some());
}

#[test]
fn test_poseidon_hash_consistency() {
    let min_out = 12345u64;
    for _ in 0..5 {
        assert!(compute_poseidon_hash(min_out).is_some());
    }
}

#[test]
fn test_poseidon_hash_bytes_and_field_element_all_zeroes() {
    let min_out = 0u64;
    let salt = [0u8; 8];
    let hash = compute_poseidon_hash_with_salt(min_out, salt);
    let bytes = u64_array_to_u8_array_le(&hash);

    let expected_bytes = [
        130, 154, 1, 250, 228, 248, 226, 43, 27, 76, 165, 173, 91, 84, 165, 131, 78, 224, 152,
        167, 123, 115, 91, 213, 116, 49, 167, 101, 109, 41, 161, 8,
    ];

    assert_eq!(bytes, expected_bytes, "Hash bytes should match expected");

    let field_element = bytes_to_bigint(&bytes);
    let expected_value =
        "14744269619966411208579211824598458697587494354926760081771325075741142829156";
    assert_eq!(
        decimal_of(&field_element),
        expected_value,
        "Field element should match expected"
    );
}

#[test]
fn test_poseidon_hash_bytes_and_field_element_non_zero_min_out() {
    let min_out = 1u64;
    let salt = [0u8; 8];
    let hash = compute_poseidon_hash_with_salt(min_out, salt);
    let bytes = u64_array_to_u8_array_le(&hash);

    let expected_bytes = [
        153, 228, 180, 254, 17, 76, 70, 85, 144, 220, 166, 91, 235, 153, 101, 2, 209, 78, 60,
        87, 166, 84, 127, 81, 221, 96, 78, 137, 198, 139, 168, 47,
    ];

    assert_eq!(bytes, expected_bytes, "Hash bytes should match expected");

    let field_element = bytes_to_bigint(&bytes);
    let expected_value =
        "18423194802802147121294641945063302532319431080857859605204660473644265519999";
    assert_eq!(
        decimal_of(&field_element),
        expected_value,
        "Field element should match expected"
    );
}

#[test]
fn test_poseidon_hash_bytes_and_field_element_non_zero_salt() {
    let min_out = 0u64;
    let mut salt = [0u8; 8];
    salt[0] = 100;
    let hash = compute_poseidon_hash_with_salt(min_out, salt);
    let bytes = u64_array_to_u8_array_le(&hash);

    let expected_bytes = [
        1, 81, 179, 227, 61, 198, 154, 248, 208, 143, 160, 176, 87, 254, 14, 196, 209, 124,
        218, 27, 125, 233, 182, 32, 41, 138, 181, 91, 71, 156, 157, 9,
    ];

    assert_eq!(bytes, expected_bytes, "Hash bytes should match expected");

    let field_element = bytes_to_bigint(&bytes);
    let expected_value =
        "8495383626315836305837861875604061881947184042460352587383381292552921449";
    assert_eq!(
        decimal_of(&field_element),
        expected_value,
        "Field element should match expected"
    );
}

#[test]
fn test_bytes_to_bigint() {
    let expected_bytes = [
        130, 154, 1, 250, 228, 248, 226, 43, 27, 76, 165, 173, 91, 84, 165, 131, 78, 224, 152,
        167, 123, 115, 91, 213, 116, 49, 167, 101, 109, 41, 161, 8,
    ];

    let bigint_result = bytes_to_bigint(&expected_bytes);

    let expected_value =
        "14744269619966411208579211824598458697587494354926760081771325075741142829156";

    assert_eq!(
        decimal_of(&bigint_result),
        expected_value,
        "Ones bytes should convert correctly"
    );
}

#[test]
fn test_bigint_to_bytes_be() {
    let bigint = [12345u64, 0, 0, 0];
    let bytes = bigint_to_bytes_be(&bigint);

    assert_eq!(bytes[0..24], [0u8; 24]);
    assert_eq!(bytes[24..32], [0, 0, 0, 0, 0, 0, 48, 57]);
}

#[test]
fn test_to_32_byte_buffer_and_from_32_byte_buffer_are_reverse() {
    let test_cases = vec![
        BigUint::from(0u64),
        BigUint::from(1u64),
        BigUint::from(12345u64),
        BigUint::from(u64::MAX),
        BigUint::parse_bytes(b"123456789012345678901234567890", 10).unwrap(),
        BigUint::parse_bytes(
            b"21888242871839275222246405745257275088548364400416034343698204186575808495617",
            10,
        )
        .unwrap(),
    ];

    for original in test_cases {
        let value = u256_of(&original);
        let buffer = to_32_byte_buffer(&value);
        let reconstructed = from_32_byte_buffer(&buffer);
        assert_eq!(
            value, reconstructed,
            "Failed for value: {}. Original: {}, Reconstructed: {}",
            original, original, decimal_of(&reconstructed)
        );
    }
}

#[test]
fn to_32_byte_buffer_is_big_endian() {
    let buffer = to_32_byte_buffer(&U256::from_u64(0x0102));
    let mut expected = [0u8; 32];
    expected[30] = 1;
    expected[31] = 2;
    assert_eq!(buffer, expected);
}

#[test]
fn test_solana_proof_conversion() {
    let commitment = bytes_to_bigint(&u64_array_to_u8_array_le(
        &compute_poseidon_hash_with_salt(0, [0; 8]),
    ));

    let public_inputs = PublicProofInputs {
        real_out: 181404864,
        commitment,
    };

    let proof = ProofPoints {
        a: G1Point {
            x: limbs("21336970266497842767908716900339070049495537133979236291184473560261457202592"),
            y: limbs("10357002110641456830517929333644944387172532981420682841938017904947253585119"),
        },
        b: G2Point {
            x0: limbs("10031611684880255122878343088918815315994982761231989012341296266256938728077"),
            x1: limbs("9864564115022077789419921627032874448498818722354799099437941413808450142573"),
            y0: limbs("3480829982942279746431969300864501854801665728182328337962114289772946080951"),
            y1: limbs("16235198704867435558683146462392128588420589574937794617432543654822315372734"),
        },
        c: G1Point {
            x: limbs("18355236746471312442545116245056291713255790355048937153933495531313019379566"),
            y: limbs("18641767980306819609170870710163640532602332263544376747995786075293749543061"),
        },
    };

    let solana_proof = convert_proof_to_solana_proof(&proof, &public_inputs);

    let expected_proof_a: [u8; 64] = [
        47, 44, 76, 21, 126, 202, 243, 46, 235, 135, 162, 57, 164, 197, 50, 168, 136, 199, 95,
        241, 187, 183, 172, 191, 78, 29, 130, 177, 191, 165, 205, 160, 25, 126, 115, 115, 144,
        158, 228, 128, 166, 92, 240, 24, 9, 92, 227, 174, 4, 13, 224, 148, 145, 54, 29, 196,
        70, 201, 135, 171, 249, 175, 88, 104,
    ];

    let expected_proof_b: [u8; 128] = [
        21, 207, 37, 58, 228, 149, 76, 73, 42, 190, 131, 167, 8, 96, 65, 141, 60, 42, 155, 231,
        62, 53, 119, 167, 164, 75, 174, 175, 155, 229, 129, 109, 22, 45, 176, 229, 160, 239,
        161, 172, 251, 6, 183, 217, 223, 47, 61, 31, 164, 95, 104, 80, 187, 77, 120, 176, 210,
        23, 149, 124, 72, 120, 122, 141, 35, 228, 203, 252, 239, 240, 195, 63, 59, 152, 45,
        248, 188, 82, 131, 158, 199, 96, 154, 166, 161, 115, 166, 70, 103, 149, 25, 174, 62,
        233, 48, 190, 7, 178, 20, 119, 210, 128, 22, 106, 28, 244, 39, 249, 64, 232, 192, 108,
        234, 154, 115, 28, 39, 187, 185, 74, 211, 132, 153, 121, 180, 81, 68, 183,
    ];

    let expected_proof_c: [u8; 64] = [
        40, 148, 178, 34, 95, 147, 249, 78, 211, 28, 202, 71, 162, 82, 131, 150, 213, 244, 32,
        183, 29, 233, 83, 95, 38, 163, 180, 110, 53, 174, 95, 110, 41, 54, 221, 228, 133, 189,
        61, 191, 111, 39, 198, 81, 208, 14, 69, 84, 114, 25, 92, 155, 135, 247, 155, 114, 173,
        228, 136, 166, 9, 51, 0, 149,
    ];

    assert_eq!(
        solana_proof.proof_a, expected_proof_a,
        "Proof A does not match expected value"
    );
    assert_eq!(
        solana_proof.proof_b, expected_proof_b,
        "Proof B does not match expected value"
    );
    assert_eq!(
        solana_proof.proof_c, expected_proof_c,
        "Proof C does not match expected value"
    );
    assert_eq!(solana_proof.public_signals.len(), 2);
    assert_eq!(solana_proof.public_signals[1], to_32_byte_buffer(&commitment));
    let mut real_out = [0u8; 32];
    real_out[24..].copy_from_slice(&181404864u64.to_be_bytes());
    assert_eq!(solana_proof.public_signals[0], real_out);
}

#[test]
fn commit_golden_vectors() {
    let zero = commit(0, [0; 8]);
    let one = commit(1, [0; 8]);
    assert_eq!(
        BigUint::from_bytes_be(&zero).to_string(),
        "14744269619966411208579211824598458697587494354926760081771325075741142829156"
    );
    assert_eq!(
        BigUint::from_bytes_be(&one).to_string(),
        "18423194802802147121294641945063302532319431080857859605204660473644265519999"
    );
}

#[test]
fn commit_is_deterministic_and_salt_sensitive() {
    assert_eq!(commit(42, [9; 8]), commit(42, [9; 8]));
    let mut seen = Vec::new();
    for i in 0..16u8 {
        let salt = match generate_random_salt() {
            Some(s) => s,
            None => [i; 8],
        };
        let c = commit(42, salt);
        for (s, other) in &seen {
            if *s != salt {
                assert_ne!(*other, c);
            }
        }
        seen.push((salt, c));
    }
    assert_ne!(commit(42, [0; 8]), commit(42, [1, 0, 0, 0, 0, 0, 0, 0]));
}
