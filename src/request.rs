//! The request validator and the challenge issuer.
use vstd::prelude::*;
use crate::error::{ErrorHandler, RejectReason};
use crate::keys::KeyPair;
use crate::model::{
    AccessRequest,
    Challenge,
    CHALLENGE_VALIDITY_MS,
    MAX_TIME_DIFF_MS,
    challenge_message,
    has_prefix,
    is_zero_param,
    starts_with,
};
use crate::primitives::{ed25519_signature, is_full_param, new_challenge, saturating_double};
use crate::encoding::is_hex_digits;

verus! {

/// The scheme prefix that every protected endpoint must carry.
pub const HTTPS_PREFIX: &'static str = "https://";

/// The distance between two instants.
pub open spec fn time_distance(a: int, b: int) -> int {
    if a >= b {
        a - b
    } else {
        b - a
    }
}

/// What the request validator decides for an endpoint and a timestamp at time `now`.
pub open spec fn request_verdict(endpoint: Seq<char>, timestamp: int, now: int) -> Result<
    (),
    RejectReason,
> {
    if !has_prefix(endpoint, HTTPS_PREFIX@) {
        Err(RejectReason::InvalidEndpoint)
    } else if time_distance(now, timestamp) > MAX_TIME_DIFF_MS {
        Err(RejectReason::ClockSkew)
    } else {
        Ok(())
    }
}

/// What holds of a challenge that was issued for `endpoint` at `difficulty` under `keys`.
pub open spec fn issued_for(c: Challenge, endpoint: Seq<char>, difficulty: u64, keys: KeyPair) -> bool {
    &&& c.website_id@ == endpoint
    &&& c.public_key == keys.public_key
    &&& c.expiration_time == c.created_time + CHALLENGE_VALIDITY_MS
    &&& (difficulty == 1 ==> is_full_param(c.challenge_param@))
    &&& !is_zero_param(c.challenge_param@)
    &&& c.recommended_attempts == saturating_double(difficulty)
    &&& c.random_nonce@.len() == 32
    &&& is_hex_digits(c.random_nonce@)
    &&& c.challenge_signature@ == ed25519_signature(keys.secret_key@, challenge_message(c))
}

/// Accepts a request whose endpoint uses HTTPS and whose timestamp is within
/// the tolerated clock skew of `now`.
pub fn validate_challenge_request(request: &AccessRequest, now: i64) -> (r: Result<(), RejectReason>)
    ensures
        r == request_verdict(request.endpoint@, request.timestamp as int, now as int),
{
    if !starts_with(request.endpoint.as_str(), HTTPS_PREFIX) {
        return Err(RejectReason::InvalidEndpoint);
    }
    let diff: i128 = now as i128 - request.timestamp as i128;
    if diff > MAX_TIME_DIFF_MS as i128 || diff < -(MAX_TIME_DIFF_MS as i128) {
        return Err(RejectReason::ClockSkew);
    }
    Ok(())
}

/// Issues a challenge for the request's endpoint, signed with the server's key.
pub fn generate_challenge_for_request(request: AccessRequest, keys: &KeyPair, difficulty: u64) -> (r:
    Challenge)
    requires
        difficulty > 0,
    ensures
        issued_for(r, request.endpoint@, difficulty, *keys),
{
    new_challenge(request.endpoint, difficulty, &keys.secret_key, keys.public_key)
}

/// Validates a request at time `now` and, when it is accepted, issues its challenge.
pub fn process_challenge_request(
    request: AccessRequest,
    now: i64,
    keys: &KeyPair,
    difficulty: u64,
) -> (r: Result<Challenge, ErrorHandler>)
    requires
        difficulty > 0,
    ensures
        request_verdict(request.endpoint@, request.timestamp as int, now as int) matches Err(
            reason,
        ) ==> r == Err::<Challenge, ErrorHandler>(ErrorHandler::Rejected(reason)),
        request_verdict(request.endpoint@, request.timestamp as int, now as int) is Ok ==> (r matches Ok(
            c,
        ) && issued_for(c, request.endpoint@, difficulty, *keys)),
{
    match validate_challenge_request(&request, now) {
        Err(reason) => Err(ErrorHandler::rejected(reason)),
        Ok(()) => Ok(generate_challenge_for_request(request, keys, difficulty)),
    }
}

} // verus!
