//! The response validator, the solution verifier and the token issuer.
use vstd::prelude::*;
use vstd::string::*;
use crate::encoding::int_to_decimal;
use crate::error::{ErrorHandler, IssueError, RejectReason};
use crate::keys::KeyPair;
use crate::model::{
    ChallengeResponse,
    Token,
    TOKEN_LIFETIME_MS,
    challenge_message,
    is_zero_param,
    param_is_zero,
    token_message,
};
use crate::primitives::{
    check_challenge_signature,
    ed25519_accepts,
    ed25519_signature,
    hex_encode,
    pow_accepts,
    sign_message,
    solution_meets_target,
};

verus! {

/// What the response validator decides for a response at time `now`; the
/// checks come in this order and the first that fails decides.
pub open spec fn response_verdict(response: ChallengeResponse, now: int) -> Result<(), RejectReason> {
    let c = response.solved_challenge;
    if response.solution < 0 {
        Err(RejectReason::InvalidSolution)
    } else if now > c.expiration_time {
        Err(RejectReason::ChallengeExpired)
    } else if c.website_id@.len() == 0 {
        Err(RejectReason::InvalidEndpoint)
    } else if is_zero_param(c.challenge_param@) {
        Err(RejectReason::InvalidParams)
    } else {
        Ok(())
    }
}

/// Whether a response carries a challenge signed with `public_key` and a
/// solution that meets the challenge's target.
pub open spec fn solution_verified(response: ChallengeResponse, public_key: Seq<u8>) -> bool {
    let c = response.solved_challenge;
    &&& ed25519_accepts(public_key, challenge_message(c), c.challenge_signature@)
    &&& pow_accepts(c.random_nonce@, c.challenge_param@, response.solution)
}

/// What holds of a token issued at time `now` for a response under `keys`.
pub open spec fn token_issued_for(t: Token, response: ChallengeResponse, keys: KeyPair, now: int) -> bool {
    &&& t.challenge_signature == response.solved_challenge.challenge_signature
    &&& t.valid_for == now + TOKEN_LIFETIME_MS
    &&& t.public_key == keys.public_key
    &&& t.auth_signature@ == ed25519_signature(
        keys.secret_key@,
        token_message(t.challenge_signature@, t.valid_for as int),
    )
}

/// Checks a response's shape and expiry at time `now`, before any cryptographic work.
pub fn validate_challenge_response(response: &ChallengeResponse, now: i64) -> (r: Result<(), RejectReason>)
    ensures
        r == response_verdict(*response, now as int),
{
    let c = &response.solved_challenge;
    if response.solution < 0 {
        return Err(RejectReason::InvalidSolution);
    }
    if now > c.expiration_time {
        return Err(RejectReason::ChallengeExpired);
    }
    if c.website_id.as_str().unicode_len() == 0 {
        return Err(RejectReason::InvalidEndpoint);
    }
    if param_is_zero(&c.challenge_param) {
        return Err(RejectReason::InvalidParams);
    }
    Ok(())
}

/// Re-checks the challenge's signature against the server's key, then
/// recomputes the proof of work; either failure rejects the solution.
pub fn verify_challenge_solution(response: &ChallengeResponse, keys: &KeyPair) -> (r: Result<(), RejectReason>)
    ensures
        r is Ok <==> solution_verified(*response, keys.public_key@),
        r is Err ==> r == Err::<(), RejectReason>(RejectReason::InvalidSolution),
{
    if check_challenge_signature(&response.solved_challenge, &keys.public_key).is_err() {
        return Err(RejectReason::InvalidSolution);
    }
    if !solution_meets_target(response) {
        return Err(RejectReason::InvalidSolution);
    }
    Ok(())
}

/// Signs a token for the response's challenge, valid for one hour from `now`.
pub fn generate_authentication_token(response: ChallengeResponse, keys: &KeyPair, now: i64) -> (r: Result<
    Token,
    IssueError,
>)
    requires
        now <= i64::MAX - TOKEN_LIFETIME_MS,
    ensures
        r matches Ok(t) && token_issued_for(t, response, *keys, now as int),
{
    let valid_for: i64 = now + TOKEN_LIFETIME_MS;
    let challenge_signature = response.solved_challenge.challenge_signature;
    proof {
        reveal_strlit("|");
    }
    let digits = int_to_decimal(valid_for);
    let message = hex_encode(&challenge_signature).concat("|").concat(digits.as_str());
    assert(message@ == token_message(challenge_signature@, valid_for as int));
    match sign_message(&keys.secret_key, message.as_str()) {
        Ok(auth_signature) => Ok(
            Token { challenge_signature, valid_for, public_key: keys.public_key, auth_signature },
        ),
        Err(_) => Err(IssueError::SigningFailed),
    }
}

/// Runs a response through validation, verification and token issuance at time `now`.
pub fn process_challenge_response(response: ChallengeResponse, now: i64, keys: &KeyPair) -> (r: Result<
    Token,
    ErrorHandler,
>)
    ensures
        response_verdict(response, now as int) matches Err(reason) ==> r == Err::<
            Token,
            ErrorHandler,
        >(ErrorHandler::Rejected(reason)),
        response_verdict(response, now as int) is Ok && !solution_verified(
            response,
            keys.public_key@,
        ) ==> r == Err::<Token, ErrorHandler>(ErrorHandler::Rejected(RejectReason::InvalidSolution)),
        r matches Ok(t) ==> response_verdict(response, now as int) is Ok && solution_verified(
            response,
            keys.public_key@,
        ) && token_issued_for(t, response, *keys, now as int),
        response_verdict(response, now as int) is Ok && solution_verified(response, keys.public_key@)
            && now > i64::MAX - TOKEN_LIFETIME_MS ==> r == Err::<Token, ErrorHandler>(
            ErrorHandler::InternalError,
        ),
        response_verdict(response, now as int) is Ok && solution_verified(response, keys.public_key@)
            && now <= i64::MAX - TOKEN_LIFETIME_MS ==> (r matches Ok(t) && token_issued_for(
            t,
            response,
            *keys,
            now as int,
        )),
{
    if let Err(reason) = validate_challenge_response(&response, now) {
        return Err(ErrorHandler::rejected(reason));
    }
    if let Err(reason) = verify_challenge_solution(&response, keys) {
        return Err(ErrorHandler::rejected(reason));
    }
    if now > i64::MAX - TOKEN_LIFETIME_MS {
        return Err(ErrorHandler::InternalError);
    }
    match generate_authentication_token(response, keys, now) {
        Ok(token) => Ok(token),
        Err(e) => Err(ErrorHandler::from_issue_error(e)),
    }
}

} // verus!
