//! The key provider, the signature primitive and the proof-of-work engine,
//! as this library relies on them.
use vstd::prelude::*;
use crate::encoding::{is_hex_digits, lower_hex};
use crate::model::{Challenge, ChallengeResponse, challenge_message, is_zero_param};
use ironshield_types::{CryptoError, IronShieldChallenge, IronShieldChallengeResponse, SigningKey};

verus! {

#[verifier::external_type_specification]
#[verifier::external_body]
pub struct ExCryptoError(ironshield_types::CryptoError);

/// The Ed25519 signature of a text's UTF-8 bytes under a 32-byte secret key.
pub uninterp spec fn ed25519_signature(secret_key: Seq<u8>, message: Seq<char>) -> Seq<u8>;

/// Whether an Ed25519 signature of a text's UTF-8 bytes checks against a 32-byte verifying key.
pub uninterp spec fn ed25519_accepts(
    public_key: Seq<u8>,
    message: Seq<char>,
    signature: Seq<u8>,
) -> bool;

/// Whether a solution meets a challenge's proof-of-work target, given the challenge's nonce.
pub uninterp spec fn pow_accepts(random_nonce: Seq<char>, challenge_param: Seq<u8>, solution: i64) -> bool;

/// Whether every byte of a target is 0xFF, the target that every hash meets.
pub open spec fn is_full_param(p: Seq<u8>) -> bool {
    forall|i: int| 0 <= i < p.len() ==> p[i] == 0xFF
}

/// Twice a difficulty, held at `u64::MAX`.
pub open spec fn saturating_double(d: u64) -> u64 {
    if 2 * d > u64::MAX {
        u64::MAX
    } else {
        (2 * d) as u64
    }
}

/// Relies on `ironshield_types::load_private_key_from_env`, with the key handed out as its 32 bytes.
#[verifier::external_body]
pub(crate) fn load_secret_key() -> (r: Result<[u8; 32], CryptoError>) {
    match ironshield_types::load_private_key_from_env() {
        Ok(key) => Ok(key.to_bytes()),
        Err(e) => Err(e),
    }
}

/// Relies on `ironshield_types::load_public_key_from_env`, with the key handed out as its 32 bytes.
#[verifier::external_body]
pub(crate) fn load_public_key() -> (r: Result<[u8; 32], CryptoError>) {
    match ironshield_types::load_public_key_from_env() {
        Ok(key) => Ok(key.to_bytes()),
        Err(e) => Err(e),
    }
}

/// Relies on `hex::encode`: two lowercase digits per byte, high nibble first.
#[verifier::external_body]
pub(crate) fn hex_encode(bytes: &[u8; 64]) -> (r: String)
    ensures
        r@ == lower_hex(bytes@),
{
    hex::encode(bytes)
}

/// Relies on `ironshield_types::generate_signature`: an Ed25519 signature of the
/// message's bytes; its body has no failing path and always returns `Ok`.
#[verifier::external_body]
pub(crate) fn sign_message(secret_key: &[u8; 32], message: &str) -> (r: Result<[u8; 64], CryptoError>)
    ensures
        r is Ok,
        r matches Ok(s) ==> s@ == ed25519_signature(secret_key@, message@),
{
    ironshield_types::generate_signature(&SigningKey::from_bytes(secret_key), message)
}

/// Relies on `IronShieldChallenge::new`: a fresh random nonce (hex of 16 random
/// bytes), the clock as creation time, expiry 30 000 ms later, a target that
/// is never all zero (all 0xFF at difficulty 1; other difficulties go through
/// a floating-point logarithm, so nothing more is claimed of them), twice the difficulty (saturating) as
/// recommended attempts, and a signature over `challenge_message`.
#[verifier::external_body]
pub(crate) fn new_challenge(
    website_id: String,
    difficulty: u64,
    secret_key: &[u8; 32],
    public_key: [u8; 32],
) -> (r: Challenge)
    requires
        difficulty > 0,
    ensures
        r.website_id@ == website_id@,
        r.public_key == public_key,
        r.expiration_time == r.created_time + 30_000,
        difficulty == 1 ==> is_full_param(r.challenge_param@),
        !is_zero_param(r.challenge_param@),
        r.recommended_attempts == saturating_double(difficulty),
        r.random_nonce@.len() == 32,
        is_hex_digits(r.random_nonce@),
        r.challenge_signature@ == ed25519_signature(secret_key@, challenge_message(r)),
{
    let c = IronShieldChallenge::new(website_id, difficulty, SigningKey::from_bytes(secret_key), public_key);
    Challenge {
        random_nonce: c.random_nonce,
        created_time: c.created_time,
        expiration_time: c.expiration_time,
        website_id: c.website_id,
        challenge_param: c.challenge_param,
        recommended_attempts: c.recommended_attempts,
        public_key: c.public_key,
        challenge_signature: c.challenge_signature,
    }
}

/// Relies on `ironshield_types::verify_challenge_signature_with_key`: `Ok` exactly
/// when the challenge's signature checks against the key over `challenge_message`.
#[verifier::external_body]
pub(crate) fn check_challenge_signature(c: &Challenge, public_key: &[u8; 32]) -> (r: Result<(), CryptoError>)
    ensures
        (r is Ok) == ed25519_accepts(public_key@, challenge_message(*c), c.challenge_signature@),
{
    let challenge = IronShieldChallenge {
        random_nonce: c.random_nonce.clone(),
        created_time: c.created_time,
        expiration_time: c.expiration_time,
        website_id: c.website_id.clone(),
        challenge_param: c.challenge_param,
        recommended_attempts: c.recommended_attempts,
        public_key: c.public_key,
        challenge_signature: c.challenge_signature,
    };
    ironshield_types::verify_challenge_signature_with_key(&challenge, public_key)
}

/// Relies on `ironshield_core::verify_ironshield_solution`: it hashes the nonce's
/// bytes with the solution and accepts when the hash is below the target, so
/// an all-zero target accepts nothing.
#[verifier::external_body]
pub(crate) fn solution_meets_target(response: &ChallengeResponse) -> (r: bool)
    ensures
        r == pow_accepts(
            response.solved_challenge.random_nonce@,
            response.solved_challenge.challenge_param@,
            response.solution,
        ),
        is_zero_param(response.solved_challenge.challenge_param@) ==> !r,
{
    let c = &response.solved_challenge;
    let solved_challenge = IronShieldChallenge {
        random_nonce: c.random_nonce.clone(),
        created_time: c.created_time,
        expiration_time: c.expiration_time,
        website_id: c.website_id.clone(),
        challenge_param: c.challenge_param,
        recommended_attempts: c.recommended_attempts,
        public_key: c.public_key,
        challenge_signature: c.challenge_signature,
    };
    ironshield_core::verify_ironshield_solution(&IronShieldChallengeResponse { solved_challenge, solution: response.solution })
}

} // verus!
