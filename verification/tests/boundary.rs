//! End-to-end tests of the boundary: the arena, the parameter codec, and the
//! hash and verify operations against the real derivation primitive.

use kdf_boundary::arena::Arena;
use kdf_boundary::codec::CostParams;
use kdf_boundary::errors::BoundaryError;
use kdf_boundary::kdf::{hash, verify, verify_bytes};

use argon2::password_hash::PasswordHasher;

/// Stages `data` into a fresh buffer of the arena and returns its address.
fn stage(arena: &mut Arena, data: &[u8]) -> usize {
    let addr = arena.allocate(data.len()).expect("allocation");
    arena.write(addr, data);
    addr
}

/// Runs the hash operation over staged password and salt bytes and returns
/// the derived key bytes.
fn hash_to_vec(
    password: &[u8],
    salt: &[u8],
    algorithm_code: usize,
    memory_cost: u32,
    time_cost: u32,
    parallelism_cost: u32,
    output_length: usize,
    version_code: usize,
) -> Result<Vec<u8>, BoundaryError> {
    let mut arena = Arena::new();
    let password_addr = stage(&mut arena, password);
    let salt_addr = stage(&mut arena, salt);
    let addr = hash(
        &mut arena,
        password_addr,
        password.len(),
        salt_addr,
        salt.len(),
        algorithm_code,
        memory_cost,
        time_cost,
        parallelism_cost,
        output_length,
        version_code,
    )?;
    Ok(arena.read(addr, output_length))
}

/// The standard textual encoding of a hash derived with the given
/// parameters, assembled by the reference primitive.
fn encode_reference(
    password: &[u8],
    salt: &[u8],
    algorithm: argon2::Algorithm,
    version: argon2::Version,
    m_cost: u32,
    t_cost: u32,
    p_cost: u32,
    output_len: usize,
) -> String {
    let params = argon2::Params::new(m_cost, t_cost, p_cost, Some(output_len)).expect("params");
    let hasher = argon2::Argon2::new(algorithm, version, params);
    hasher
        .hash_password_with_salt(password, salt)
        .expect("reference hash")
        .to_string()
}

const PASSWORD: &[u8] = b"correct horse";
const SALT: &[u8] = b"battery staple!!";

#[test]
fn determinism_repeated_calls_agree() {
    let a = hash_to_vec(PASSWORD, SALT, 2, 12, 3, 1, 32, 19).unwrap();
    let b = hash_to_vec(PASSWORD, SALT, 2, 12, 3, 1, 32, 19).unwrap();
    assert_eq!(a, b);
    assert_eq!(a.len(), 32);
}

#[test]
fn concrete_vector_matches_reference_primitive() {
    // memory_cost exponent 12 expands to 4096 memory units.
    let ours = hash_to_vec(PASSWORD, SALT, 2, 12, 3, 1, 32, 19).unwrap();

    let params = argon2::Params::new(4096, 3, 1, Some(32)).unwrap();
    let reference = argon2::Argon2::new(argon2::Algorithm::Argon2id, argon2::Version::V0x13, params);
    let mut expected = [0u8; 32];
    reference
        .hash_password_into(PASSWORD, SALT, &mut expected)
        .unwrap();
    assert_eq!(ours.as_slice(), expected.as_slice());

    let mut hex = String::new();
    for b in &ours {
        hex.push_str(&format!("{:02x}", b));
    }
    assert_eq!(
        hex,
        "c5ab191272342022ae020b961946d7ba84df4dcbfb2545a1af1080e5ae9be0fd"
    );
}

#[test]
fn default_policy_unknown_algorithm_code_is_hybrid() {
    let with_code_7 = hash_to_vec(PASSWORD, SALT, 7, 12, 3, 1, 32, 19).unwrap();
    let with_code_2 = hash_to_vec(PASSWORD, SALT, 2, 12, 3, 1, 32, 19).unwrap();
    assert_eq!(with_code_7, with_code_2);
}

#[test]
fn default_policy_unknown_version_code_is_current() {
    let with_code_99 = hash_to_vec(PASSWORD, SALT, 2, 12, 3, 1, 32, 99).unwrap();
    let with_code_19 = hash_to_vec(PASSWORD, SALT, 2, 12, 3, 1, 32, 0x13).unwrap();
    assert_eq!(with_code_99, with_code_19);
}

#[test]
fn algorithm_codes_zero_and_one_differ_from_hybrid() {
    let d = hash_to_vec(PASSWORD, SALT, 0, 12, 3, 1, 32, 19).unwrap();
    let i = hash_to_vec(PASSWORD, SALT, 1, 12, 3, 1, 32, 19).unwrap();
    let id = hash_to_vec(PASSWORD, SALT, 2, 12, 3, 1, 32, 19).unwrap();
    assert_ne!(d, i);
    assert_ne!(d, id);
    assert_ne!(i, id);
}

#[test]
fn round_trip_verifies() {
    let encoded = encode_reference(
        PASSWORD,
        SALT,
        argon2::Algorithm::Argon2id,
        argon2::Version::V0x13,
        4096,
        3,
        1,
        32,
    );
    assert_eq!(verify_bytes(PASSWORD, encoded.as_bytes()), Ok(true));
}

#[test]
fn round_trip_verifies_for_legacy_revision_and_other_variants() {
    for algorithm in [
        argon2::Algorithm::Argon2d,
        argon2::Algorithm::Argon2i,
        argon2::Algorithm::Argon2id,
    ] {
        for version in [argon2::Version::V0x10, argon2::Version::V0x13] {
            let encoded = encode_reference(PASSWORD, SALT, algorithm, version, 32, 2, 2, 16);
            assert_eq!(verify_bytes(PASSWORD, encoded.as_bytes()), Ok(true));
        }
    }
}

#[test]
fn wrong_password_does_not_verify() {
    let encoded = encode_reference(
        PASSWORD,
        SALT,
        argon2::Algorithm::Argon2id,
        argon2::Version::V0x13,
        4096,
        3,
        1,
        32,
    );
    assert_eq!(verify_bytes(b"incorrect horse", encoded.as_bytes()), Ok(false));
    assert_eq!(verify_bytes(b"", encoded.as_bytes()), Ok(false));
}

#[test]
fn verify_reads_from_the_arena() {
    let encoded = encode_reference(
        PASSWORD,
        SALT,
        argon2::Algorithm::Argon2id,
        argon2::Version::V0x13,
        4096,
        3,
        1,
        32,
    );
    let mut arena = Arena::new();
    let password_addr = stage(&mut arena, PASSWORD);
    let hash_addr = stage(&mut arena, encoded.as_bytes());
    assert_eq!(
        verify(&arena, password_addr, PASSWORD.len(), hash_addr, encoded.len()),
        Ok(true)
    );
    let wrong_addr = stage(&mut arena, b"incorrect horse");
    assert_eq!(
        verify(&arena, wrong_addr, 15, hash_addr, encoded.len()),
        Ok(false)
    );
}

#[test]
fn malformed_hash_string_is_a_hard_failure() {
    assert_eq!(
        verify_bytes(PASSWORD, b"not an encoded hash"),
        Err(BoundaryError::MalformedHash)
    );
    assert_eq!(
        verify_bytes(PASSWORD, &[0xff, 0xfe, 0x24]),
        Err(BoundaryError::MalformedHash)
    );
    assert_eq!(verify_bytes(PASSWORD, b""), Err(BoundaryError::MalformedHash));
}

#[test]
fn unknown_algorithm_tag_is_a_quiet_false() {
    // Syntactically valid encoding, but no such derivation function.
    let encoded = "$scrypt$v=19$m=4096,t=3,p=1$YmF0dGVyeSBzdGFwbGUhIQ$c29tZSBvdXRwdXQgYnl0ZXM";
    assert_eq!(verify_bytes(PASSWORD, encoded.as_bytes()), Ok(false));
}

#[test]
fn hash_output_is_not_its_input() {
    let out = hash_to_vec(PASSWORD, SALT, 2, 12, 3, 1, 32, 19).unwrap();
    assert_ne!(out.as_slice(), PASSWORD);
    assert_ne!(out.as_slice(), SALT);
    assert_ne!(out, vec![0u8; 32]);
}

#[test]
fn too_short_salt_fails_derivation() {
    // The primitive insists on a salt of at least 8 bytes.
    assert_eq!(
        hash_to_vec(PASSWORD, b"ab", 2, 12, 3, 1, 32, 19),
        Err(BoundaryError::DerivationFailed)
    );
}
