//! The password hasher: memory-hard, salted hashing with self-describing
//! output, and constant-outcome verification.

use vstd::prelude::*;
use vstd::string::StringSliceAdditionalSpecFns;

use argon2::password_hash::PasswordHash;
use argon2::password_hash::PasswordHasher as _;
use argon2::password_hash::PasswordVerifier as _;
use argon2::password_hash::SaltString;

verus! {

/// Whether a password matches a stored hash string; names the outcome of
/// parsing the hash with `argon2::PasswordHash::new` and checking the
/// password with `Argon2::default().verify_password`.  A hash that does
/// not parse matches nothing.
pub uninterp spec fn password_matches(password: Seq<char>, hash: Seq<char>) -> bool;

/// Relies on argon2::Argon2::hash_password with a fresh random salt from
/// SaltString::generate: the returned PHC string embeds the salt and
/// parameters, and verifying the same password against it succeeds.
/// With a generated salt and the default parameters, hashing fails only
/// for a password longer than the algorithm's four-gigabyte bound.  The
/// salt is random, so nothing else is promised of the string.
#[verifier::external_body]
pub fn hash_password(password: &str) -> (r: Option<String>)
    ensures
        password.spec_bytes().len() <= 0xFFFFFFFF ==> r is Some,
        r matches Some(h) ==> password_matches(password@, h@),
{
    let salt = SaltString::generate(&mut rand::thread_rng());
    match argon2::Argon2::default().hash_password(password.as_bytes(), &salt) {
        Ok(h) => Some(h.to_string()),
        Err(_) => None,
    }
}

/// Relies on argon2::PasswordHash::new and
/// Argon2::default().verify_password: both are functions of the password
/// and the hash string alone; a malformed hash and a wrong password both
/// yield `false`.
#[verifier::external_body]
pub fn verify_password(password: &str, hash: &str) -> (r: bool)
    ensures
        r == password_matches(password@, hash@),
{
    match PasswordHash::new(hash) {
        Ok(parsed) => argon2::Argon2::default().verify_password(password.as_bytes(), &parsed).is_ok(),
        Err(_) => false,
    }
}

} // verus!
