//! Error taxonomy of the identity core.
//!
//! `ValidationError` and `ConflictError` carry the reason they were raised;
//! both credential failures are reported as one `InvalidCredentials` value so
//! that a caller cannot tell an unknown identifier from a wrong password.

use vstd::prelude::*;

verus! {

/// Failure of a service operation.
#[derive(Debug)]
pub enum ServiceError {
    /// Input violated a validation rule; the message names the first rule broken.
    Validation(String),
    /// A uniqueness rule would be violated; the message names the field.
    Conflict(String),
    /// Unknown identifier or wrong password, reported identically for both.
    InvalidCredentials,
    /// The presented token failed to decode or carries a stale token version.
    InvalidToken,
    /// Internal failure of the credential hasher.
    Hashing,
    /// The referenced user does not exist.
    NotFound,
}

/// Failure of decoding a session token.
#[derive(Debug, PartialEq, Eq, Structural, Clone, Copy)]
pub enum TokenError {
    /// The token was well signed but its expiry instant has passed.
    Expired,
    /// Bad signature, malformed payload, or wrong secret.
    Invalid,
}

} // verus!
