//! The server's Ed25519 key pair, loaded once and handed to the issuers.
use vstd::prelude::*;
use crate::error::IssueError;
use ironshield_types::CryptoError;
use crate::primitives::{load_public_key, load_secret_key};

verus! {

/// The signing key and the matching verifying key, as their 32 bytes each.
pub struct KeyPair {
    pub secret_key: [u8; 32],
    pub public_key: [u8; 32],
}

impl KeyPair {
    pub fn new(secret_key: [u8; 32], public_key: [u8; 32]) -> (r: KeyPair)
        ensures
            r.secret_key == secret_key,
            r.public_key == public_key,
    {
        KeyPair { secret_key, public_key }
    }

    /// Builds the key pair from the outcomes of loading each key: a failed
    /// signing key is reported first, then a failed verifying key.
    pub fn from_loaded(
        secret_key: Result<[u8; 32], CryptoError>,
        public_key: Result<[u8; 32], CryptoError>,
    ) -> (r: Result<KeyPair, IssueError>)
        ensures
            secret_key is Err ==> r == Err::<KeyPair, IssueError>(IssueError::SigningKeyUnavailable),
            secret_key is Ok && public_key is Err ==> r == Err::<KeyPair, IssueError>(
                IssueError::PublicKeyUnavailable,
            ),
            secret_key is Ok && public_key is Ok ==> (r matches Ok(k) && k.secret_key
                == secret_key->Ok_0 && k.public_key == public_key->Ok_0),
    {
        match (secret_key, public_key) {
            (Err(_), _) => Err(IssueError::SigningKeyUnavailable),
            (Ok(_), Err(_)) => Err(IssueError::PublicKeyUnavailable),
            (Ok(s), Ok(p)) => Ok(KeyPair { secret_key: s, public_key: p }),
        }
    }

    /// Loads the key pair from the process configuration.
    pub fn from_env() -> (r: Result<KeyPair, IssueError>)
        ensures
            r matches Err(e) ==> (e == IssueError::SigningKeyUnavailable || e
                == IssueError::PublicKeyUnavailable),
    {
        let secret_key = load_secret_key();
        let public_key = load_public_key();
        KeyPair::from_loaded(secret_key, public_key)
    }
}

} // verus!
