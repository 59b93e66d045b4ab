//! The artifacts of the protocol and the exact text that their signatures cover.
use vstd::prelude::*;
use crate::encoding::{decimal, lower_hex};

verus! {

/// How long an issued challenge stays valid, in milliseconds.
pub const CHALLENGE_VALIDITY_MS: i64 = 30_000;

/// The largest accepted distance between a request's timestamp and the server's clock, in milliseconds.
pub const MAX_TIME_DIFF_MS: i64 = 30_000;

/// How long a token stays valid after it is issued, in milliseconds.
pub const TOKEN_LIFETIME_MS: i64 = 3_600_000;

/// A client's request for a challenge.
#[derive(Clone, Debug)]
pub struct AccessRequest {
    /// The protected endpoint, as a URL.
    pub endpoint: String,
    /// The client's clock, in milliseconds since the Unix epoch.
    pub timestamp: i64,
}

/// A signed proof-of-work challenge bound to one endpoint.
#[derive(Clone, Debug)]
pub struct Challenge {
    /// Hex text of random bytes drawn for this challenge.
    pub random_nonce: String,
    pub created_time: i64,
    pub expiration_time: i64,
    /// The endpoint that the challenge guards.
    pub website_id: String,
    /// The proof-of-work target; all zero bytes mark it as unset.
    pub challenge_param: [u8; 32],
    pub recommended_attempts: u64,
    /// The issuer's verifying key.
    pub public_key: [u8; 32],
    /// The issuer's signature over `challenge_message`.
    pub challenge_signature: [u8; 64],
}

/// A challenge together with the client's claimed solution.
#[derive(Clone, Debug)]
pub struct ChallengeResponse {
    pub solved_challenge: Challenge,
    pub solution: i64,
}

/// A signed, time-bounded capability that proves a challenge was solved.
#[derive(Clone, Debug)]
pub struct Token {
    /// The signature of the redeemed challenge.
    pub challenge_signature: [u8; 64],
    /// End of validity, in milliseconds since the Unix epoch.
    pub valid_for: i64,
    /// The issuer's verifying key.
    pub public_key: [u8; 32],
    /// The issuer's signature over `token_message`.
    pub auth_signature: [u8; 64],
}

/// The text that a challenge's signature covers: every field but the signature
/// and the recommended attempts, joined by `|`, integers in decimal and byte
/// arrays in lowercase hex.
pub open spec fn challenge_message(c: Challenge) -> Seq<char> {
    c.random_nonce@ + seq!['|'] + decimal(c.created_time as int) + seq!['|'] + decimal(
        c.expiration_time as int,
    ) + seq!['|'] + c.website_id@ + seq!['|'] + lower_hex(c.challenge_param@) + seq!['|']
        + lower_hex(c.public_key@)
}

/// The text that a token's signature covers: the challenge signature in
/// lowercase hex, `|`, and the end of validity in decimal.
pub open spec fn token_message(challenge_signature: Seq<u8>, valid_for: int) -> Seq<char> {
    lower_hex(challenge_signature) + seq!['|'] + decimal(valid_for)
}

/// Whether a proof-of-work target is the all-zero sentinel.
pub open spec fn is_zero_param(p: Seq<u8>) -> bool {
    forall|i: int| 0 <= i < p.len() ==> p[i] == 0
}

/// Tests whether a proof-of-work target is the all-zero sentinel.
pub fn param_is_zero(p: &[u8; 32]) -> (r: bool)
    ensures
        r == is_zero_param(p@),
{
    let mut i: usize = 0;
    while i < 32
        invariant
            i <= 32,
            p@.len() == 32,
            forall|j: int| 0 <= j < i ==> p@[j] == 0,
        decreases 32 - i,
    {
        if p[i] != 0 {
            return false;
        }
        i = i + 1;
    }
    true
}

/// Whether `s` starts with `prefix`.
pub open spec fn has_prefix(s: Seq<char>, prefix: Seq<char>) -> bool {
    prefix.len() <= s.len() && s.subrange(0, prefix.len() as int) == prefix
}

/// Tests whether `s` starts with `prefix`, character by character.
pub fn starts_with(s: &str, prefix: &str) -> (r: bool)
    ensures
        r == has_prefix(s@, prefix@),
{
    let n = prefix.unicode_len();
    let m = s.unicode_len();
    if n > m {
        return false;
    }
    let mut i: usize = 0;
    while i < n
        invariant
            i <= n <= m,
            n == prefix@.len(),
            m == s@.len(),
            forall|j: int| 0 <= j < i ==> s@[j] == prefix@[j],
        decreases n - i,
    {
        if s.get_char(i) != prefix.get_char(i) {
            return false;
        }
        i = i + 1;
    }
    assert(s@.subrange(0, n as int) =~= prefix@);
    true
}

} // verus!
