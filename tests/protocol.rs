use ironshield_api::error::{ErrorHandler, IssueError, RejectReason};
use ironshield_api::keys::KeyPair;
use ironshield_api::model::{AccessRequest, Challenge, ChallengeResponse, TOKEN_LIFETIME_MS};
use ironshield_api::request::{generate_challenge_for_request, process_challenge_request, validate_challenge_request};
use ironshield_api::response::{
    generate_authentication_token,
    process_challenge_response,
    validate_challenge_response,
    verify_challenge_solution,
};
use ironshield_types::{CryptoError, SigningKey};

const NOW: i64 = 1_755_401_345_880;

fn test_keys() -> KeyPair {
    let secret = [7u8; 32];
    let public = SigningKey::from_bytes(&secret).verifying_key().to_bytes();
    KeyPair::new(secret, public)
}

fn other_keys() -> KeyPair {
    let secret = [9u8; 32];
    let public = SigningKey::from_bytes(&secret).verifying_key().to_bytes();
    KeyPair::new(secret, public)
}

fn request(endpoint: &str, timestamp: i64) -> AccessRequest {
    AccessRequest { endpoint: endpoint.to_string(), timestamp }
}

fn issued_challenge(keys: &KeyPair) -> Challenge {
    generate_challenge_for_request(request("https://example.com", NOW), keys, 1)
}

fn plain_challenge(param: [u8; 32]) -> Challenge {
    Challenge {
        random_nonce: "00112233445566778899aabbccddeeff".to_string(),
        created_time: NOW,
        expiration_time: NOW + 30_000,
        website_id: "https://example.com".to_string(),
        challenge_param: param,
        recommended_attempts: 2,
        public_key: [0u8; 32],
        challenge_signature: [0u8; 64],
    }
}

#[test]
fn https_request_is_accepted() {
    assert_eq!(validate_challenge_request(&request("https://example.com", NOW), NOW), Ok(()));
}

#[test]
fn http_request_is_rejected_as_invalid_endpoint() {
    let keys = test_keys();
    let r = request("http://example.com", NOW);
    assert_eq!(validate_challenge_request(&r, NOW), Err(RejectReason::InvalidEndpoint));
    match process_challenge_request(r, NOW, &keys, 1) {
        Err(e) => {
            let (status, message) = e.status_and_message();
            assert_eq!(status, 422);
            assert_eq!(message, "Endpoint must be a valid HTTPS URL");
        },
        Ok(_) => panic!("a challenge was issued for a plain HTTP endpoint"),
    }
}

#[test]
fn endpoint_check_is_case_and_prefix_exact() {
    assert_eq!(validate_challenge_request(&request("HTTPS://example.com", NOW), NOW), Err(RejectReason::InvalidEndpoint));
    assert_eq!(validate_challenge_request(&request("https:/example.com", NOW), NOW), Err(RejectReason::InvalidEndpoint));
    assert_eq!(validate_challenge_request(&request("", NOW), NOW), Err(RejectReason::InvalidEndpoint));
    assert_eq!(validate_challenge_request(&request("https://", NOW), NOW), Ok(()));
}

#[test]
fn clock_skew_tolerance_is_an_upper_bound() {
    let e = "https://example.com";
    assert_eq!(validate_challenge_request(&request(e, NOW - 30_000), NOW), Ok(()));
    assert_eq!(validate_challenge_request(&request(e, NOW + 30_000), NOW), Ok(()));
    assert_eq!(validate_challenge_request(&request(e, NOW - 30_001), NOW), Err(RejectReason::ClockSkew));
    assert_eq!(validate_challenge_request(&request(e, NOW + 30_001), NOW), Err(RejectReason::ClockSkew));
    assert_eq!(validate_challenge_request(&request(e, NOW - 1), NOW), Ok(()));
}

#[test]
fn extreme_timestamps_are_rejected_without_overflow() {
    let e = "https://example.com";
    assert_eq!(validate_challenge_request(&request(e, i64::MIN), i64::MAX), Err(RejectReason::ClockSkew));
    assert_eq!(validate_challenge_request(&request(e, i64::MAX), i64::MIN), Err(RejectReason::ClockSkew));
}

#[test]
fn clock_skew_error_has_status_400() {
    let keys = test_keys();
    match process_challenge_request(request("https://example.com", NOW - 60_000), NOW, &keys, 1) {
        Err(e) => assert_eq!(e.status_and_message().0, 400),
        Ok(_) => panic!("a stale request was accepted"),
    }
}

#[test]
fn issued_challenge_has_its_fields() {
    let keys = test_keys();
    let c = issued_challenge(&keys);
    assert_eq!(c.website_id, "https://example.com");
    assert_eq!(c.public_key, keys.public_key);
    assert_eq!(c.expiration_time, c.created_time + 30_000);
    assert_ne!(c.challenge_param, [0u8; 32]);
    assert_eq!(c.challenge_param, [0xFF; 32]);
    assert_eq!(c.recommended_attempts, 2);
    assert_eq!(c.random_nonce.len(), 32);
    assert!(c.random_nonce.chars().all(|ch| ch.is_ascii_digit() || ('a'..='f').contains(&ch)));
}

#[test]
fn issued_challenge_signature_covers_its_fields() {
    let keys = test_keys();
    let c = issued_challenge(&keys);
    let message = format!(
        "{}|{}|{}|{}|{}|{}",
        c.random_nonce,
        c.created_time,
        c.expiration_time,
        c.website_id,
        hex::encode(c.challenge_param),
        hex::encode(c.public_key)
    );
    let expected = ironshield_types::generate_signature(&SigningKey::from_bytes(&keys.secret_key), &message).unwrap();
    assert_eq!(c.challenge_signature, expected);
}

#[test]
fn issued_challenge_passes_verification() {
    let keys = test_keys();
    let c = issued_challenge(&keys);
    let response = ChallengeResponse { solved_challenge: c, solution: 0 };
    assert_eq!(verify_challenge_solution(&response, &keys), Ok(()));
}

#[test]
fn mutated_challenge_fails_verification() {
    let keys = test_keys();
    let c = issued_challenge(&keys);
    let mut mutants = Vec::new();
    let mut m = c.clone();
    m.created_time += 1;
    mutants.push(m);
    let mut m = c.clone();
    m.expiration_time += 60_000;
    mutants.push(m);
    let mut m = c.clone();
    m.website_id = "https://evil.example.com".to_string();
    mutants.push(m);
    let mut m = c.clone();
    m.random_nonce = "ffffffffffffffffffffffffffffffff".to_string();
    mutants.push(m);
    let mut m = c.clone();
    m.challenge_param[31] ^= 1;
    mutants.push(m);
    let mut m = c.clone();
    m.challenge_signature[0] ^= 1;
    mutants.push(m);
    for mutant in mutants {
        let response = ChallengeResponse { solved_challenge: mutant, solution: 0 };
        assert_eq!(verify_challenge_solution(&response, &keys), Err(RejectReason::InvalidSolution));
    }
}

#[test]
fn challenge_from_another_issuer_fails_verification() {
    let c = issued_challenge(&other_keys());
    let response = ChallengeResponse { solved_challenge: c, solution: 0 };
    assert_eq!(verify_challenge_solution(&response, &test_keys()), Err(RejectReason::InvalidSolution));
}

#[test]
fn full_exchange_issues_a_token() {
    let keys = test_keys();
    let challenge = match process_challenge_request(request("https://example.com", NOW), NOW, &keys, 1) {
        Ok(c) => c,
        Err(e) => panic!("request rejected: {:?}", e),
    };
    assert_eq!(challenge.expiration_time, challenge.created_time + 30_000);
    let now = challenge.created_time + 1_000;
    let signature = challenge.challenge_signature;
    let response = ChallengeResponse { solved_challenge: challenge, solution: 3 };
    let token = match process_challenge_response(response, now, &keys) {
        Ok(t) => t,
        Err(e) => panic!("response rejected: {:?}", e),
    };
    assert_eq!(token.valid_for, now + 3_600_000);
    assert_eq!(token.challenge_signature, signature);
    assert_eq!(token.public_key, keys.public_key);
}

#[test]
fn token_signature_covers_hex_signature_and_validity() {
    let keys = test_keys();
    let c = issued_challenge(&keys);
    let now = c.created_time;
    let response = ChallengeResponse { solved_challenge: c.clone(), solution: 5 };
    let token = generate_authentication_token(response, &keys, now).unwrap();
    let message = format!("{}|{}", hex::encode(c.challenge_signature), now + TOKEN_LIFETIME_MS);
    let expected = ironshield_types::generate_signature(&SigningKey::from_bytes(&keys.secret_key), &message).unwrap();
    assert_eq!(token.auth_signature, expected);
    let extended = format!("{}|{}", hex::encode(c.challenge_signature), now + TOKEN_LIFETIME_MS + 1);
    let other = ironshield_types::generate_signature(&SigningKey::from_bytes(&keys.secret_key), &extended).unwrap();
    assert_ne!(token.auth_signature, other);
}

#[test]
fn expired_challenge_is_rejected_with_410() {
    let keys = test_keys();
    let c = issued_challenge(&keys);
    let late = c.expiration_time + 1;
    let response = ChallengeResponse { solved_challenge: c, solution: 0 };
    assert_eq!(validate_challenge_response(&response, late), Err(RejectReason::ChallengeExpired));
    match process_challenge_response(response, late, &keys) {
        Err(e) => {
            let (status, message) = e.status_and_message();
            assert_eq!(status, 410);
            assert_eq!(message, "Challenge has expired");
        },
        Ok(_) => panic!("a token was issued for an expired challenge"),
    }
}

#[test]
fn challenge_is_valid_up_to_its_expiration_time() {
    let c = plain_challenge([1u8; 32]);
    let exp = c.expiration_time;
    let response = ChallengeResponse { solved_challenge: c, solution: 0 };
    assert_eq!(validate_challenge_response(&response, exp), Ok(()));
    assert_eq!(validate_challenge_response(&response, exp + 1), Err(RejectReason::ChallengeExpired));
}

#[test]
fn negative_solution_is_rejected_first() {
    let c = plain_challenge([0u8; 32]);
    let late = c.expiration_time + 1;
    let response = ChallengeResponse { solved_challenge: c, solution: -1 };
    assert_eq!(validate_challenge_response(&response, late), Err(RejectReason::InvalidSolution));
}

#[test]
fn empty_endpoint_is_rejected() {
    let mut c = plain_challenge([1u8; 32]);
    c.website_id = String::new();
    let response = ChallengeResponse { solved_challenge: c, solution: 0 };
    assert_eq!(validate_challenge_response(&response, NOW), Err(RejectReason::InvalidEndpoint));
}

#[test]
fn zero_param_never_validates() {
    let keys = test_keys();
    let mut c = issued_challenge(&keys);
    c.challenge_param = [0u8; 32];
    let now = c.created_time;
    let response = ChallengeResponse { solved_challenge: c, solution: 0 };
    assert_eq!(validate_challenge_response(&response, now), Err(RejectReason::InvalidParams));
    match process_challenge_response(response, now, &keys) {
        Err(e) => assert_eq!(e.status_and_message().0, 422),
        Ok(_) => panic!("a token was issued for an all-zero target"),
    }
}

#[test]
fn single_nonzero_byte_is_not_the_sentinel() {
    let mut p = [0u8; 32];
    p[31] = 1;
    let response = ChallengeResponse { solved_challenge: plain_challenge(p), solution: 0 };
    assert_eq!(validate_challenge_response(&response, NOW), Ok(()));
}

#[test]
fn rejection_is_repeatable() {
    let mut c = plain_challenge([0u8; 32]);
    c.website_id = String::new();
    let response = ChallengeResponse { solved_challenge: c, solution: 0 };
    let first = validate_challenge_response(&response, NOW);
    let second = validate_challenge_response(&response, NOW);
    assert_eq!(first, Err(RejectReason::InvalidEndpoint));
    assert_eq!(first, second);
    let later = validate_challenge_response(&response, NOW + 60_000);
    assert!(later.is_err());
}

#[test]
fn token_is_not_issued_when_clock_is_out_of_range() {
    let keys = test_keys();
    let mut c = issued_challenge(&keys);
    c.expiration_time = i64::MAX;
    let response = ChallengeResponse { solved_challenge: c, solution: 0 };
    match process_challenge_response(response, i64::MAX - 1, &keys) {
        Err(e) => assert!(e.status_and_message().0 >= 400),
        Ok(_) => panic!("a token was issued"),
    }
}

#[test]
fn issue_error_labels() {
    assert_eq!(IssueError::SigningKeyUnavailable.label(), "Failed to load signing key");
    assert_eq!(IssueError::PublicKeyUnavailable.label(), "Failed to load public key");
    match ErrorHandler::from_issue_error(IssueError::SigningFailed) {
        ErrorHandler::ProcessingError(m) => assert_eq!(m, "Signature verification failed"),
        other => panic!("unexpected {:?}", other),
    }
}

#[test]
fn unsolved_challenge_fails_verification() {
    let keys = test_keys();
    let c = generate_challenge_for_request(request("https://example.com", NOW), &keys, u64::MAX);
    let mut target = [0u8; 32];
    target[7] = 1;
    assert_eq!(c.challenge_param, target);
    let now = c.created_time;
    for solution in [0i64, 1, 2, 12345] {
        let response = ChallengeResponse { solved_challenge: c.clone(), solution };
        assert_eq!(validate_challenge_response(&response, now), Ok(()));
        assert_eq!(verify_challenge_solution(&response, &keys), Err(RejectReason::InvalidSolution));
    }
    let response = ChallengeResponse { solved_challenge: c, solution: 7 };
    match process_challenge_response(response, now, &keys) {
        Err(e) => assert_eq!(e.status_and_message(), (422, "Invalid solution provided for the challenge".to_string())),
        Ok(_) => panic!("a token was issued for an unsolved challenge"),
    }
}

#[test]
fn token_for_given_signature_and_time() {
    let keys = test_keys();
    let mut c = plain_challenge([1u8; 32]);
    c.challenge_signature = [0xab; 64];
    let response = ChallengeResponse { solved_challenge: c, solution: 0 };
    let token = generate_authentication_token(response, &keys, 1_700_000_000_000).unwrap();
    assert_eq!(token.valid_for, 1_700_003_600_000);
    assert_eq!(token.challenge_signature, [0xab; 64]);
    let message = format!("{}|1700003600000", "ab".repeat(64));
    let expected = ironshield_types::generate_signature(&SigningKey::from_bytes(&keys.secret_key), &message).unwrap();
    assert_eq!(token.auth_signature, expected);
}

#[test]
fn key_pair_from_load_results() {
    let missing = || CryptoError::MissingEnvironmentVariable("IRONSHIELD_PRIVATE_KEY".to_string());
    assert!(matches!(KeyPair::from_loaded(Err(missing()), Ok([1u8; 32])), Err(IssueError::SigningKeyUnavailable)));
    assert!(matches!(KeyPair::from_loaded(Err(missing()), Err(missing())), Err(IssueError::SigningKeyUnavailable)));
    assert!(matches!(KeyPair::from_loaded(Ok([1u8; 32]), Err(missing())), Err(IssueError::PublicKeyUnavailable)));
    match KeyPair::from_loaded(Ok([1u8; 32]), Ok([2u8; 32])) {
        Ok(k) => {
            assert_eq!(k.secret_key, [1u8; 32]);
            assert_eq!(k.public_key, [2u8; 32]);
        },
        Err(e) => panic!("unexpected {:?}", e),
    }
}
