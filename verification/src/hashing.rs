//! The credential hasher: one-way password hashing and verification through
//! the Argon2 library.

use vstd::prelude::*;

verus! {

/// Whether `password` matches the PHC-format credential `hash` under the
/// Argon2 defaults, exactly as `argon2::Argon2::verify_password` decides it:
/// a function of the two strings alone. A malformed `hash` matches nothing.
pub uninterp spec fn phc_matches(password: Seq<char>, hash: Seq<char>) -> bool;

/// Relies on argon2::Argon2::hash_password (Argon2id, default parameters)
/// with a fresh random salt: the returned PHC string verifies against
/// `password`. A failure of the hashing library is fatal, not recoverable.
#[verifier::external_body]
pub(crate) fn hash_password(password: &str) -> (r: String)
    ensures
        phc_matches(password@, r@),
{
    let salt = argon2::password_hash::SaltString::generate(&mut rand::rngs::OsRng);
    let argon = argon2::Argon2::default();
    let hashed = argon2::PasswordHasher::hash_password(&argon, password.as_bytes(), &salt);
    hashed.unwrap().to_string()
}

/// Relies on argon2::Argon2::verify_password: re-parses the stored PHC
/// string, recomputes the digest with the stored salt and parameters, and
/// compares. A malformed stored hash yields false, indistinguishable from a
/// mismatch.
#[verifier::external_body]
pub(crate) fn verify_password(password: &str, hash: &str) -> (r: bool)
    ensures
        r == phc_matches(password@, hash@),
{
    let argon = argon2::Argon2::default();
    match argon2::password_hash::PasswordHash::new(hash) {
        Ok(parsed) => argon2::PasswordVerifier::verify_password(
            &argon,
            password.as_bytes(),
            &parsed,
        ).is_ok(),
        Err(_) => false,
    }
}

} // verus!
