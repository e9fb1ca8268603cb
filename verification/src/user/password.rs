//! Hashing the password of a new user.

use vstd::prelude::*;
use argon2::PasswordHasher;

verus! {

/// The PHC string that `Argon2::default().hash_password` makes of a password
/// (its UTF-8 bytes) under a B64-encoded salt; none where the crate refuses
/// them.
pub uninterp spec fn argon2_phc(password: Seq<char>, salt: Seq<char>) -> Option<Seq<char>>;

/// Reads the salt with `Salt::from_b64` and hashes the password with
/// `Argon2::default()` (Argon2id, default parameters); the contract claims
/// only that the hash is a function of the password and the salt.
#[verifier::external_body]
fn argon2_hash(password: &str, salt: &str) -> (r: Option<String>)
    ensures
        match r {
            Some(h) => argon2_phc(password@, salt@) == Some(h@),
            None => argon2_phc(password@, salt@) is None,
        },
{
    let salt = argon2::password_hash::Salt::from_b64(salt).ok()?;
    argon2::Argon2::default().hash_password(password.as_bytes(), salt).ok().map(|h| h.to_string())
}

/// Why a password could not be hashed.
#[derive(Clone, Copy, Debug, PartialEq, Eq, Structural)]
pub enum PasswordHashError {
    /// The salt or the password was refused by the hasher.
    Refused,
}

/// Hashes a password under a salt that the caller drew at random.
pub fn hash_password(password: &str, salt: &str) -> (r: Result<String, PasswordHashError>)
    ensures
        match r {
            Ok(h) => argon2_phc(password@, salt@) == Some(h@),
            Err(e) => argon2_phc(password@, salt@) is None && e == PasswordHashError::Refused,
        },
{
    match argon2_hash(password, salt) {
        Some(h) => Ok(h),
        None => Err(PasswordHashError::Refused),
    }
}

} // verus!
