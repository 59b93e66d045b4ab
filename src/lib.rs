//! Issuing and checking signed proof-of-work challenges and the tokens that redeem them.
//!
//! A client asks for a challenge (`request`), solves its proof of work, and
//! hands it back (`response`) in exchange for a signed, time-bounded token.
//! The server keeps no state: every artifact carries a signature over the
//! exact text described in `model`, and `laws` states what holds of them.

pub mod encoding;
pub mod model;
pub mod error;
pub mod primitives;
pub mod keys;
pub mod request;
pub mod response;
pub mod laws;
