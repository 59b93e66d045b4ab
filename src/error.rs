//! Rejection reasons, issuing failures, and the error type that the HTTP layer renders.
use vstd::prelude::*;
use vstd::string::*;
use std::time::Duration;

verus! {

pub const INVALID_ENDPOINT: &'static str = "Endpoint must be a valid HTTPS URL";
pub const CLOCK_SKEW: &'static str = "Request timestamp does not match the current time";
pub const INVALID_SOLUTION: &'static str = "Invalid solution provided for the challenge";
pub const CHALLENGE_EXPIRED: &'static str = "Challenge has expired";
pub const INVALID_PARAMS: &'static str = "Invalid challenge parameters";
pub const PUB_KEY_FAIL: &'static str = "Failed to load public key";
pub const SIG_KEY_FAIL: &'static str = "Failed to load signing key";
pub const SIGNATURE_FAIL: &'static str = "Signature verification failed";
pub const NETWORK_ERROR: &'static str = "Network request failed";
pub const TIMEOUT_ERROR: &'static str = "Operation timed out";
pub const CONFIG_ERROR: &'static str = "Invalid configuration";
pub const MAX_ITERATIONS: &'static str = "Maximum solving iterations reached without finding solution";

pub const STATUS_OK: u16 = 200;
pub const STATUS_OK_MSG: &'static str = "OK";

#[verifier::external_type_specification]
#[verifier::external_body]
pub struct ExJsonError(serde_json::Error);

#[verifier::external_type_specification]
#[verifier::external_body]
pub struct ExNetworkError(reqwest::Error);

/// Why a client's request or response was turned away.
#[derive(Clone, Copy, Debug, PartialEq, Eq, Structural)]
pub enum RejectReason {
    InvalidEndpoint,
    ClockSkew,
    InvalidSolution,
    ChallengeExpired,
    InvalidParams,
}

/// The HTTP status of each rejection.
pub open spec fn reject_status(r: RejectReason) -> u16 {
    match r {
        RejectReason::InvalidEndpoint => 422,
        RejectReason::ClockSkew => 400,
        RejectReason::InvalidSolution => 422,
        RejectReason::ChallengeExpired => 410,
        RejectReason::InvalidParams => 422,
    }
}

/// The message of each rejection.
pub open spec fn reject_message(r: RejectReason) -> Seq<char> {
    match r {
        RejectReason::InvalidEndpoint => INVALID_ENDPOINT@,
        RejectReason::ClockSkew => CLOCK_SKEW@,
        RejectReason::InvalidSolution => INVALID_SOLUTION@,
        RejectReason::ChallengeExpired => CHALLENGE_EXPIRED@,
        RejectReason::InvalidParams => INVALID_PARAMS@,
    }
}

impl RejectReason {
    pub fn status_code(&self) -> (r: u16)
        ensures
            r == reject_status(*self),
    {
        match self {
            RejectReason::InvalidEndpoint => 422,
            RejectReason::ClockSkew => 400,
            RejectReason::InvalidSolution => 422,
            RejectReason::ChallengeExpired => 410,
            RejectReason::InvalidParams => 422,
        }
    }

    pub fn message(&self) -> (r: String)
        ensures
            r@ == reject_message(*self),
    {
        match self {
            RejectReason::InvalidEndpoint => String::from_str(INVALID_ENDPOINT),
            RejectReason::ClockSkew => String::from_str(CLOCK_SKEW),
            RejectReason::InvalidSolution => String::from_str(INVALID_SOLUTION),
            RejectReason::ChallengeExpired => String::from_str(CHALLENGE_EXPIRED),
            RejectReason::InvalidParams => String::from_str(INVALID_PARAMS),
        }
    }
}

/// Server-side failures while issuing a challenge or a token.
#[derive(Clone, Copy, Debug, PartialEq, Eq, Structural)]
pub enum IssueError {
    /// The signing key could not be loaded.
    SigningKeyUnavailable,
    /// The verifying key could not be loaded.
    PublicKeyUnavailable,
    /// The signing primitive reported a failure.
    SigningFailed,
}

/// The short label that stands for each issuing failure; it never holds key material.
pub open spec fn issue_label(e: IssueError) -> Seq<char> {
    match e {
        IssueError::SigningKeyUnavailable => SIG_KEY_FAIL@,
        IssueError::PublicKeyUnavailable => PUB_KEY_FAIL@,
        IssueError::SigningFailed => SIGNATURE_FAIL@,
    }
}

impl IssueError {
    pub fn label(&self) -> (r: String)
        ensures
            r@ == issue_label(*self),
    {
        match self {
            IssueError::SigningKeyUnavailable => String::from_str(SIG_KEY_FAIL),
            IssueError::PublicKeyUnavailable => String::from_str(PUB_KEY_FAIL),
            IssueError::SigningFailed => String::from_str(SIGNATURE_FAIL),
        }
    }
}

/// Every error that a request can end in.
#[derive(Debug)]
pub enum ErrorHandler {
    InvalidRequest(String),
    ProcessingError(String),
    SerializationError(serde_json::Error),
    InternalError,
    NetworkError(reqwest::Error),
    TimeoutError { duration: Duration },
    ConfigurationError(String),
    ChallengeSolvingError(String),
    ChallengeVerificationError(String),
    AuthenticationError(String),
    RateLimitError(String),
    NotFoundError(String),
    PermissionError(String),
    /// A client-caused rejection with its own status.
    Rejected(RejectReason),
}

/// The HTTP status of an error.
pub open spec fn error_status(e: ErrorHandler) -> u16 {
    match e {
        ErrorHandler::InvalidRequest(_) => 400,
        ErrorHandler::ProcessingError(_) => 422,
        ErrorHandler::SerializationError(_) => 500,
        ErrorHandler::InternalError => 500,
        ErrorHandler::NetworkError(_) => 502,
        ErrorHandler::TimeoutError { .. } => 408,
        ErrorHandler::ConfigurationError(_) => 400,
        ErrorHandler::ChallengeSolvingError(_) => 422,
        ErrorHandler::ChallengeVerificationError(_) => 401,
        ErrorHandler::AuthenticationError(_) => 401,
        ErrorHandler::RateLimitError(_) => 429,
        ErrorHandler::NotFoundError(_) => 404,
        ErrorHandler::PermissionError(_) => 403,
        ErrorHandler::Rejected(r) => reject_status(r),
    }
}

/// The message of an error as the client sees it.
pub open spec fn error_message(e: ErrorHandler) -> Seq<char> {
    match e {
        ErrorHandler::InvalidRequest(m) => m@,
        ErrorHandler::ProcessingError(m) => m@,
        ErrorHandler::SerializationError(_) => "Data processing error"@,
        ErrorHandler::InternalError => "Internal server error"@,
        ErrorHandler::NetworkError(_) => "Network communication failed"@,
        ErrorHandler::TimeoutError { .. } => "Request timed out"@,
        ErrorHandler::ConfigurationError(m) => "Configuration error: "@ + m@,
        ErrorHandler::ChallengeSolvingError(m) => "Challenge solving failed: "@ + m@,
        ErrorHandler::ChallengeVerificationError(m) => "Challenge verification failed: "@ + m@,
        ErrorHandler::AuthenticationError(m) => "Authentication failed: "@ + m@,
        ErrorHandler::RateLimitError(m) => "Rate limit exceeded: "@ + m@,
        ErrorHandler::NotFoundError(m) => "Resource not found: "@ + m@,
        ErrorHandler::PermissionError(m) => "Permission denied: "@ + m@,
        ErrorHandler::Rejected(r) => reject_message(r),
    }
}

fn prefixed(prefix: &str, m: &String) -> (r: String)
    ensures
        r@ == prefix@ + m@,
{
    String::from_str(prefix).concat(m.as_str())
}

impl ErrorHandler {
    /// The HTTP status and the client-facing message of this error.
    pub fn status_and_message(&self) -> (r: (u16, String))
        ensures
            r.0 == error_status(*self),
            r.1@ == error_message(*self),
    {
        proof {
            reveal_strlit("Data processing error");
            reveal_strlit("Internal server error");
            reveal_strlit("Network communication failed");
            reveal_strlit("Request timed out");
            reveal_strlit("Configuration error: ");
            reveal_strlit("Challenge solving failed: ");
            reveal_strlit("Challenge verification failed: ");
            reveal_strlit("Authentication failed: ");
            reveal_strlit("Rate limit exceeded: ");
            reveal_strlit("Resource not found: ");
            reveal_strlit("Permission denied: ");
        }
        match self {
            ErrorHandler::InvalidRequest(m) => (400, m.clone()),
            ErrorHandler::ProcessingError(m) => (422, m.clone()),
            ErrorHandler::SerializationError(_) => (500, String::from_str("Data processing error")),
            ErrorHandler::InternalError => (500, String::from_str("Internal server error")),
            ErrorHandler::NetworkError(_) => (502, String::from_str("Network communication failed")),
            ErrorHandler::TimeoutError { .. } => (408, String::from_str("Request timed out")),
            ErrorHandler::ConfigurationError(m) => (400, prefixed("Configuration error: ", m)),
            ErrorHandler::ChallengeSolvingError(m) => (422, prefixed("Challenge solving failed: ", m)),
            ErrorHandler::ChallengeVerificationError(m) => (
                401,
                prefixed("Challenge verification failed: ", m),
            ),
            ErrorHandler::AuthenticationError(m) => (401, prefixed("Authentication failed: ", m)),
            ErrorHandler::RateLimitError(m) => (429, prefixed("Rate limit exceeded: ", m)),
            ErrorHandler::NotFoundError(m) => (404, prefixed("Resource not found: ", m)),
            ErrorHandler::PermissionError(m) => (403, prefixed("Permission denied: ", m)),
            ErrorHandler::Rejected(r) => (r.status_code(), r.message()),
        }
    }

    /// The error for a client-caused rejection.
    pub fn rejected(reason: RejectReason) -> (r: Self)
        ensures
            r == ErrorHandler::Rejected(reason),
    {
        ErrorHandler::Rejected(reason)
    }

    /// The error for a server-side issuing failure: its label, and nothing more.
    pub fn from_issue_error(e: IssueError) -> (r: Self)
        ensures
            r matches ErrorHandler::ProcessingError(m) && m@ == issue_label(e),
    {
        ErrorHandler::ProcessingError(e.label())
    }

    pub fn from_network_error(error: reqwest::Error) -> (r: Self)
        ensures
            r == ErrorHandler::NetworkError(error),
    {
        ErrorHandler::NetworkError(error)
    }

    pub fn timeout(duration: Duration) -> (r: Self)
        ensures
            r == (ErrorHandler::TimeoutError { duration }),
    {
        ErrorHandler::TimeoutError { duration }
    }

    pub fn config_error<M: Into<String>>(message: M) -> (r: Self)
        ensures
            r matches ErrorHandler::ConfigurationError(m) && call_ensures(M::into, (message,), m),
    {
        ErrorHandler::ConfigurationError(message.into())
    }

    pub fn challenge_solving_error<M: Into<String>>(message: M) -> (r: Self)
        ensures
            r matches ErrorHandler::ChallengeSolvingError(m) && call_ensures(M::into, (message,), m),
    {
        ErrorHandler::ChallengeSolvingError(message.into())
    }

    pub fn challenge_verification_error<M: Into<String>>(message: M) -> (r: Self)
        ensures
            r matches ErrorHandler::ChallengeVerificationError(m) && call_ensures(
                M::into,
                (message,),
                m,
            ),
    {
        ErrorHandler::ChallengeVerificationError(message.into())
    }

    pub fn authentication_error<M: Into<String>>(message: M) -> (r: Self)
        ensures
            r matches ErrorHandler::AuthenticationError(m) && call_ensures(M::into, (message,), m),
    {
        ErrorHandler::AuthenticationError(message.into())
    }

    pub fn rate_limit_error<M: Into<String>>(message: M) -> (r: Self)
        ensures
            r matches ErrorHandler::RateLimitError(m) && call_ensures(M::into, (message,), m),
    {
        ErrorHandler::RateLimitError(message.into())
    }

    pub fn not_found_error<M: Into<String>>(message: M) -> (r: Self)
        ensures
            r matches ErrorHandler::NotFoundError(m) && call_ensures(M::into, (message,), m),
    {
        ErrorHandler::NotFoundError(message.into())
    }

    pub fn permission_error<M: Into<String>>(message: M) -> (r: Self)
        ensures
            r matches ErrorHandler::PermissionError(m) && call_ensures(M::into, (message,), m),
    {
        ErrorHandler::PermissionError(message.into())
    }
}

} // verus!
