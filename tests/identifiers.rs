use sails_program_verifier::consts::AVAILABLE_VERSIONS;
use sails_program_verifier::digest::{code_id_bytes, hash_bytes};
use sails_program_verifier::error::VerifierError;
use sails_program_verifier::model::{Network, VerificationStatus};
use sails_program_verifier::util::{
    check_docker_version, generate_code_id, generate_id, get_unprefixed_code_id, hash_idl,
    validate_and_get_code_id,
};

const EMPTY_DIGEST: &str = "0e5751c026e543b2e8ab2eb06099daa1d1e5df47778f7787faab45cdf12fe3a8";
const ABC_DIGEST: &str = "bddd813c634239723171ef3fee98579b94964e3bb1cb3e427262c8c068d52319";

#[test]
fn code_id_of_empty_binary() {
    assert_eq!(generate_code_id(&[]), EMPTY_DIGEST);
}

#[test]
fn code_id_of_abc() {
    assert_eq!(generate_code_id(b"abc"), ABC_DIGEST);
}

#[test]
fn idl_hash_uses_utf8_bytes() {
    assert_eq!(hash_idl("abc"), ABC_DIGEST);
    assert_eq!(hash_idl(""), EMPTY_DIGEST);
}

#[test]
fn hashing_is_deterministic() {
    let data = b"service X{}".to_vec();
    let a = hash_bytes(&data);
    let b = hash_bytes(&data.clone());
    assert_eq!(a, b);
    assert_eq!(a.len(), 64);
    assert!(a.chars().all(|c| c.is_ascii_digit() || ('a'..='f').contains(&c)));
    assert_ne!(hash_bytes(b"service X{}"), hash_bytes(b"service Y{}"));
}

#[test]
fn generated_ids_are_fifteen_alphanumerics() {
    let id = generate_id();
    assert_eq!(id.len(), 15);
    assert!(id.chars().all(|c| c.is_ascii_alphanumeric()));
}

#[test]
fn prefixed_code_id_yields_suffix() {
    let hex = "ab".repeat(32);
    let prefixed = format!("0x{hex}");
    assert_eq!(validate_and_get_code_id(&prefixed), Ok(hex.clone()));
    assert_eq!(validate_and_get_code_id(&hex), Ok(hex));
}

#[test]
fn code_id_of_wrong_length_is_invalid() {
    let short = format!("0x{}", "a".repeat(63));
    let long = format!("0x{}", "a".repeat(65));
    assert_eq!(validate_and_get_code_id(&short), Err(VerifierError::InvalidCodeId));
    assert_eq!(validate_and_get_code_id(&long), Err(VerifierError::InvalidCodeId));
    assert_eq!(validate_and_get_code_id(&"a".repeat(63)), Err(VerifierError::InvalidCodeId));
    assert_eq!(validate_and_get_code_id(""), Err(VerifierError::InvalidCodeId));
}

#[test]
fn code_id_with_non_hex_is_invalid() {
    let bad = format!("{}g", "a".repeat(63));
    assert_eq!(validate_and_get_code_id(&bad), Err(VerifierError::InvalidCodeId));
    let double = format!("0x0x{}", "a".repeat(60));
    assert_eq!(validate_and_get_code_id(&double), Err(VerifierError::InvalidCodeId));
}

#[test]
fn code_id_is_lowered() {
    let upper = format!("0x{}", "AbCdEf01".repeat(8));
    assert_eq!(validate_and_get_code_id(&upper), Ok("abcdef01".repeat(8)));
}

#[test]
fn normalising_twice_changes_nothing() {
    for input in [format!("0x{}", "F0".repeat(32)), "9a".repeat(32), "0".repeat(64)] {
        let once = validate_and_get_code_id(&input).unwrap();
        assert_eq!(validate_and_get_code_id(&once), Ok(once.clone()));
    }
}

#[test]
fn unprefixed_code_id() {
    assert_eq!(get_unprefixed_code_id("0xabc"), Some("abc"));
    assert_eq!(get_unprefixed_code_id("abc"), None);
    assert_eq!(get_unprefixed_code_id("0X12"), None);
    assert_eq!(get_unprefixed_code_id("0x"), Some(""));
}

#[test]
fn code_id_bytes_decodes_both_cases() {
    let id = format!("{}{}", "0aFf".repeat(8), "00".repeat(16));
    let bytes = code_id_bytes(&id).unwrap();
    assert_eq!(bytes.len(), 32);
    assert_eq!(&bytes[..4], &[0x0a, 0xff, 0x0a, 0xff]);
    assert_eq!(code_id_bytes(&"a".repeat(63)), None);
    assert_eq!(code_id_bytes(&format!("0x{}", "a".repeat(64))), None);
    assert_eq!(code_id_bytes(&"z".repeat(64)), None);
}

#[test]
fn allowed_versions_pass() {
    for v in AVAILABLE_VERSIONS {
        assert_eq!(check_docker_version(v), Ok(()));
    }
}

#[test]
fn unknown_version_is_rejected() {
    assert_eq!(check_docker_version("0.9.0"), Err(VerifierError::UnsupportedVersion));
    assert_eq!(check_docker_version(""), Err(VerifierError::UnsupportedVersion));
    assert_eq!(check_docker_version("0.8.0 "), Err(VerifierError::UnsupportedVersion));
}

#[test]
fn status_names_round_trip() {
    for s in [
        VerificationStatus::Pending,
        VerificationStatus::InProgress,
        VerificationStatus::Verified,
        VerificationStatus::Failed,
    ] {
        assert_eq!(VerificationStatus::from_name(s.as_str()), Some(s));
    }
    assert_eq!(VerificationStatus::InProgress.as_str(), "in_progress");
    assert_eq!(VerificationStatus::from_name("done"), None);
}

#[test]
fn network_names_round_trip() {
    assert_eq!(Network::from_name("vara_mainnet"), Some(Network::VaraMainnet));
    assert_eq!(Network::from_name("vara_testnet"), Some(Network::VaraTestnet));
    assert_eq!(Network::from_name(Network::VaraTestnet.as_str()), Some(Network::VaraTestnet));
    assert_eq!(Network::from_name("mainnet"), None);
}
