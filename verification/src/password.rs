//! Hashing passwords and holding a password against a hash.

use vstd::prelude::*;
use vstd::string::StringSliceAdditionalSpecFns;
use crate::error::DatabaseError;

verus! {

/// The error of the `password-hash` crate. The library looks no further into
/// it than whether there is one.
#[verifier::external_type_specification]
#[verifier::external_body]
pub struct ExPasswordHashError(argon2::password_hash::Error);

/// Whether `Argon2::default().verify_password` accepts the password for the
/// hash, where the hash is a string in the PHC format; a string that is no
/// such hash accepts no password.
pub uninterp spec fn argon2_accepts(password: Seq<u8>, hash: Seq<char>) -> bool;

/// Hashes the password with Argon2 in its default setting, under a salt that
/// `SaltString::generate` draws from the operating system. The salt is drawn
/// anew at each call, so nothing is promised of the hash here.
#[verifier::external_body]
pub fn hash(password: &[u8]) -> (r: Result<String, argon2::password_hash::Error>) {
    let salt = argon2::password_hash::SaltString::generate(
        &mut argon2::password_hash::rand_core::OsRng,
    );
    let hashed = argon2::PasswordHasher::hash_password(&argon2::Argon2::default(), password, &salt)?;
    Ok(hashed.to_string())
}

/// Reads the hash with `PasswordHash::new` and holds the password against it
/// with `Argon2::default().verify_password`, which hashes the password again
/// under the salt and the parameters that the hash names and compares. A
/// string that cannot be read as a hash accepts nothing.
#[verifier::external_body]
pub fn verify(password: &[u8], hash: &str) -> (r: bool)
    ensures
        r == argon2_accepts(password@, hash@),
{
    match argon2::PasswordHash::new(hash) {
        Ok(parsed) => argon2::PasswordVerifier::verify_password(
            &argon2::Argon2::default(),
            password,
            &parsed,
        ).is_ok(),
        Err(_) => false,
    }
}

/// What a fresh hash is worth: it is used only if it accepts the password it
/// was made from.
pub fn accept_hash(
    password: &[u8],
    hashed: Result<String, argon2::password_hash::Error>,
) -> (r: Result<String, DatabaseError>)
    ensures
        match hashed {
            Ok(h) => if argon2_accepts(password@, h@) {
                r == Ok::<String, DatabaseError>(h)
            } else {
                r == Err::<String, DatabaseError>(DatabaseError::Other)
            },
            Err(_) => r == Err::<String, DatabaseError>(DatabaseError::Hash),
        },
{
    match hashed {
        Ok(h) => {
            if verify(password, h.as_str()) {
                Ok(h)
            } else {
                Err(DatabaseError::Other)
            }
        },
        Err(_) => Err(DatabaseError::Hash),
    }
}

/// Whether the hash accepts the password, given as text.
pub open spec fn accepts(password: Seq<char>, hash: Seq<char>) -> bool {
    argon2_accepts(vstd::utf8::encode_utf8(password), hash)
}

/// Holds a password, given as text, against a hash.
pub fn verify_text(password: &str, hash: &str) -> (r: bool)
    ensures
        r == accepts(password@, hash@),
{
    verify(password.as_bytes(), hash)
}

/// Hashes a password, given as text, and makes sure that the hash accepts it.
pub fn hash_text(password: &str) -> (r: Result<String, DatabaseError>)
    ensures
        match r {
            Ok(h) => accepts(password@, h@),
            Err(e) => e == DatabaseError::Hash || e == DatabaseError::Other,
        },
{
    hash_checked(password.as_bytes())
}

/// Hashes the password and makes sure that the hash accepts it. A hash that
/// comes back is one that the password logs in with.
pub fn hash_checked(password: &[u8]) -> (r: Result<String, DatabaseError>)
    ensures
        match r {
            Ok(h) => argon2_accepts(password@, h@),
            Err(e) => e == DatabaseError::Hash || e == DatabaseError::Other,
        },
{
    let hashed = hash(password);
    accept_hash(password, hashed)
}

} // verus!
