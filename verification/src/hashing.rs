//! Credential hasher: salted, memory-hard password hashing.
//!
//! A hash is a self-describing PHC string carrying algorithm parameters,
//! salt and digest. Hashing draws a fresh random salt per call, so two
//! hashes of one password differ as strings, while both verify it. Whether
//! a password verifies against a hash string is a deterministic function of
//! the two, named [`password_matches`]; whether a hash string parses at all
//! is named [`phc_well_formed`].

use vstd::prelude::*;
use argon2::{Argon2, PasswordHasher, PasswordVerifier};
use argon2::password_hash::SaltString;
use rand::rngs::OsRng;

verus! {

/// The error type of the `argon2` crate's password-hash operations; opaque
/// here, mapped to the library's own error by callers.
#[verifier::external_type_specification]
#[verifier::external_body]
pub struct ExPasswordHashError(argon2::password_hash::Error);

/// What `Argon2::verify_password` decides: whether `password` matches the
/// PHC hash string `phc`. Deterministic in the two arguments, since
/// verification re-runs the hash with the salt and parameters that `phc`
/// itself carries.
pub uninterp spec fn password_matches(password: Seq<char>, phc: Seq<char>) -> bool;

/// Whether `argon2::PasswordHash::new` accepts `phc` as a PHC hash string.
pub uninterp spec fn phc_well_formed(phc: Seq<char>) -> bool;

/// Hashes a password with a fresh random salt.
///
/// Relies on `Argon2::hash_password` with a salt from `SaltString::generate`:
/// the produced PHC string parses back (its own documentation round-trips it
/// through `PasswordHash::new`) and verifies the password it was made from.
/// Fails only on internal RNG or algorithm failure.
#[verifier::external_body]
pub fn hash_password(password: &str) -> (r: Result<String, argon2::password_hash::Error>)
    ensures
        r matches Ok(h) ==> phc_well_formed(h@) && password_matches(password@, h@),
{
    let salt = SaltString::generate(&mut OsRng);
    match Argon2::default().hash_password(password.as_bytes(), &salt) {
        Ok(h) => Ok(h.to_string()),
        Err(e) => Err(e),
    }
}

/// What a verification call reports: an error exactly on a malformed hash
/// string, otherwise the deterministic match verdict.
pub open spec fn verify_outcome(
    password: Seq<char>,
    phc: Seq<char>,
    r: Result<bool, argon2::password_hash::Error>,
) -> bool {
    &&& r is Ok <==> phc_well_formed(phc)
    &&& (r matches Ok(m) ==> m == password_matches(password, phc))
}

/// Checks a password against a stored PHC hash string.
///
/// Relies on `argon2::PasswordHash::new` to parse the hash string (failure
/// is an error, not a mismatch) and on `Argon2::verify_password`, whose
/// verdict is deterministic in the password and the parsed string; any
/// verification failure is reported as a mismatch, as the source does for
/// wrong passwords.
#[verifier::external_body]
pub fn verify_password(password: &str, phc: &str) -> (r: Result<
    bool,
    argon2::password_hash::Error,
>)
    ensures
        verify_outcome(password@, phc@, r),
{
    let parsed = match argon2::PasswordHash::new(phc) {
        Ok(p) => p,
        Err(e) => return Err(e),
    };
    match Argon2::default().verify_password(password.as_bytes(), &parsed) {
        Ok(()) => Ok(true),
        Err(_) => Ok(false),
    }
}

/// A fresh hash verifies the password it was made from: any hash
/// `hash_password` can return for `p` satisfies `password_matches(p, h)`
/// and is well formed, so every verification outcome for that pair is
/// `Ok(true)`.
pub proof fn lemma_fresh_hash_verifies(
    p: Seq<char>,
    h: Seq<char>,
    r: Result<bool, argon2::password_hash::Error>,
)
    requires
        phc_well_formed(h),
        password_matches(p, h),
        verify_outcome(p, h, r),
    ensures
        r matches Ok(m) && m == true,
{
}

} // verus!
