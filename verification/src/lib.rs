//! Verified core of a user-account service: password policy and hashing,
//! signed session tokens with version-based revocation, and a user store
//! whose uniqueness rules are maintained by every operation.

pub mod errors;
pub mod hashing;
pub mod policy;
pub mod service;
pub mod store;
pub mod token;

