//! Password hashing with Argon2id in the PHC string format.
use vstd::prelude::*;

use crate::text::has_prefix;
use vstd::string::StringSliceAdditionalSpecFns;

verus! {

/// Whether a text parses as a PHC password-hash string.
pub uninterp spec fn phc_well_formed(hash: Seq<char>) -> bool;

/// Whether Argon2 accepts a password against a well-formed PHC string.
pub uninterp spec fn argon2_accepts(password: Seq<u8>, hash: Seq<char>) -> bool;

#[derive(Clone, Debug)]
pub enum CryptoError {
    /// Hashing failed; the text is the hasher's message.
    Hashing(String),
    /// The stored hash is not a PHC string; the text is the parser's message.
    MalformedHash(String),
}

/// Relies on `argon2::Argon2::default()` and `PasswordHasher::hash_password`
/// with a salt from `SaltString::generate(OsRng)`. The salt is random, so of a
/// success only what holds under every salt is stated: the algorithm prefix
/// that `PasswordHash`'s `Display` writes, that the string parses back, and
/// that verification with the same password accepts it.
#[verifier::external_body]
fn argon2_hash(password: &[u8]) -> (r: Result<String, String>)
    ensures
        r matches Ok(s) ==> has_prefix(s@, "$argon2id"@) && phc_well_formed(s@)
            && argon2_accepts(password@, s@),
{
    let salt = argon2::password_hash::SaltString::generate(
        &mut argon2::password_hash::rand_core::OsRng,
    );
    match argon2::PasswordHasher::hash_password(&argon2::Argon2::default(), password, &salt) {
        Ok(h) => Ok(h.to_string()),
        Err(e) => Err(e.to_string()),
    }
}

/// Relies on `argon2::PasswordHash::new`, which parses the PHC string, and
/// `PasswordVerifier::verify_password` of `Argon2::default()`.
#[verifier::external_body]
fn argon2_check(password: &[u8], hash: &str) -> (r: Result<bool, String>)
    ensures
        r is Ok <==> phc_well_formed(hash@),
        r matches Ok(b) ==> b == argon2_accepts(password@, hash@),
{
    let parsed = match argon2::PasswordHash::new(hash) {
        Ok(p) => p,
        Err(e) => return Err(e.to_string()),
    };
    let verdict = argon2::PasswordVerifier::verify_password(&argon2::Argon2::default(), password, &parsed);
    Ok(verdict.is_ok())
}

pub struct CryptoManager;

impl CryptoManager {
    /// An Argon2id PHC string for the password, under a fresh random salt,
    /// which `verify_password` accepts for the same password.
    pub fn derive_key(password: &str) -> (r: Result<String, CryptoError>)
        ensures
            r matches Ok(s) ==> has_prefix(s@, "$argon2id"@) && phc_well_formed(s@)
                && argon2_accepts(password.spec_bytes(), s@),
            r matches Err(e) ==> e is Hashing,
    {
        match argon2_hash(password.as_bytes()) {
            Ok(s) => Ok(s),
            Err(m) => Err(CryptoError::Hashing(m)),
        }
    }

    /// Whether the password matches the stored hash; an error when the stored
    /// hash is not a PHC string.
    pub fn verify_password(password: &str, hash: &str) -> (r: Result<bool, CryptoError>)
        ensures
            r is Ok <==> phc_well_formed(hash@),
            r matches Ok(b) ==> b == argon2_accepts(password.spec_bytes(), hash@),
            r matches Err(e) ==> e is MalformedHash,
    {
        match argon2_check(password.as_bytes(), hash) {
            Ok(b) => Ok(b),
            Err(m) => Err(CryptoError::MalformedHash(m)),
        }
    }
}

} // verus!
