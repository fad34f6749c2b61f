//! Password hashing with Argon2.

use crate::error::Error;
use argon2::password_hash::rand_core::OsRng;
use argon2::password_hash::SaltString;
use argon2::{Argon2, PasswordHash, PasswordHasher, PasswordVerifier};
use vstd::prelude::*;
use vstd::string::StringSliceAdditionalSpecFns;

verus! {

/// Whether Argon2 (default parameters) accepts `password` against the PHC
/// string `phc`: the string parses as a password hash and the password
/// hashes to it.
pub uninterp spec fn argon2_verifies(password: Seq<u8>, phc: Seq<char>) -> bool;

/// Hashes `password` with a fresh random salt.
///
/// Trusted: draws a 16-byte salt with `SaltString::generate(&mut OsRng)`,
/// calls `Argon2::default().hash_password(password, &salt)` and writes
/// the hash as a PHC string. The salt is random, so the hash is not named.
/// Claimed of it: Argon2's input check fails only for passwords longer
/// than `MAX_PWD_LEN` (0xFFFFFFFF bytes) or salts outside 8..=0xFFFFFFFF
/// bytes, so shorter passwords hash; the default algorithm is Argon2id, so
/// the PHC string begins with `$argon2id$`; and the hash verifies the
/// password it was made from (`PasswordVerifier` recomputes it with the
/// salt and parameters stored in the string).
#[verifier::external_body]
fn argon2_hash_salted(password: &[u8]) -> (r: Result<String, argon2::password_hash::Error>)
    ensures
        password@.len() <= 0xFFFF_FFFF ==> r is Ok,
        r is Ok ==> argon2_verifies(password@, r->Ok_0@),
        r is Ok ==> r->Ok_0@.len() >= 10 && r->Ok_0@.take(10) == "$argon2id$"@,
{
    let salt = SaltString::generate(&mut OsRng);
    match Argon2::default().hash_password(password, &salt) {
        Ok(hash) => Ok(hash.to_string()),
        Err(e) => Err(e),
    }
}

/// Checks `password` against the PHC string `phc`.
///
/// Trusted: parses `phc` with `PasswordHash::new` (a string that does not
/// parse verifies nothing) and calls `Argon2::default().verify_password`;
/// the answer is named `argon2_verifies`.
#[verifier::external_body]
fn argon2_verify(password: &[u8], phc: &str) -> (ok: bool)
    ensures
        ok == argon2_verifies(password@, phc@),
{
    match PasswordHash::new(phc) {
        Ok(hash) => Argon2::default().verify_password(password, &hash).is_ok(),
        Err(_) => false,
    }
}

/// Hashes a password into an Argon2id PHC string with a fresh salt.
/// Every password of at most 0xFFFFFFFF bytes hashes; a hash that it
/// returns verifies the password (law: `verify_password(pass, hash)` is
/// then true); a failure of the hasher is returned as
/// `Error::PasswordHashError`.
pub fn hash_password(pass: &str) -> (r: Result<String, Error>)
    ensures
        pass.spec_bytes().len() <= 0xFFFF_FFFF ==> r is Ok,
        r is Ok ==> argon2_verifies(pass.spec_bytes(), r->Ok_0@),
        r is Ok ==> r->Ok_0@.len() >= 10 && r->Ok_0@.take(10) == "$argon2id$"@,
        r is Err ==> r->Err_0 is PasswordHashError,
{
    match argon2_hash_salted(pass.as_bytes()) {
        Ok(hash) => Ok(hash),
        Err(e) => Err(Error::from(e)),
    }
}

/// Whether `pass` matches the PHC string `hashed_password`; a string that
/// is not a password hash matches nothing.
pub fn verify_password(pass: &str, hashed_password: &str) -> (ok: bool)
    ensures
        ok == argon2_verifies(pass.spec_bytes(), hashed_password@),
{
    argon2_verify(pass.as_bytes(), hashed_password)
}

} // verus!
