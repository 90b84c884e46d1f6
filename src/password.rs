//! Salted, memory-hard password hashing for protected links.

use vstd::prelude::*;
use crate::code::{generate_random_code, is_code, SALT_LENGTH};

verus! {

/// Longest password, in characters, whose UTF-8 bytes stay within the
/// hasher's limit of `u32::MAX` bytes.
pub const MAX_PASSWORD_CHARS: usize = 0x3FFF_FFFF;

/// The head of a PHC string written by Argon2 under default parameters:
/// algorithm, version and costs, each after a `$`, then the `$` before the
/// salt.
pub open spec fn argon2_default_head() -> Seq<char> {
    "$argon2id$v=19$m=19456,t=2,p=1$"@
}

/// `phc` is a default-parameter Argon2 PHC string that carries `salt`.
pub open spec fn is_phc_with_salt(phc: Seq<char>, salt: Seq<char>) -> bool {
    exists|h: Seq<char>| phc == argon2_default_head() + salt + seq!['$'] + h
}

/// Whether the Argon2 verifier accepts `password` against the PHC string
/// `phc`.
pub uninterp spec fn argon2_accepts(password: Seq<char>, phc: Seq<char>) -> bool;

/// Relies on argon2's `PasswordHasher::hash_password` under default
/// parameters, with a salt given as base64 text, and on password-hash's
/// `Display` of the result: the PHC string
/// `$argon2id$v=19$m=19456,t=2,p=1$<salt>$<hash>`, which the crate's own
/// verifier accepts for the same password. The salt of sixteen
/// letters and digits is valid base64, and the password fits the hasher's
/// length limit, so neither call fails.
#[verifier::external_body]
fn argon2_hash(password: &str, salt: &str) -> (r: String)
    requires
        password@.len() <= MAX_PASSWORD_CHARS,
        salt@.len() == SALT_LENGTH,
        is_code(salt@),
    ensures
        argon2_accepts(password@, r@),
        is_phc_with_salt(r@, salt@),
{
    let salt = argon2::password_hash::Salt::from_b64(salt).unwrap();
    let hasher = argon2::Argon2::default();
    argon2::PasswordHasher::hash_password(&hasher, password.as_bytes(), salt).unwrap().to_string()
}

/// Relies on password-hash's `PasswordHash::new` and argon2's
/// `PasswordVerifier::verify_password`: `true` when the PHC string parses and
/// the password hashes to it under the parameters it records.
#[verifier::external_body]
pub(crate) fn argon2_verify(password: &str, phc: &str) -> (r: bool)
    ensures
        r == argon2_accepts(password@, phc@),
{
    match argon2::PasswordHash::new(phc) {
        Ok(hash) => argon2::PasswordVerifier::verify_password(
            &argon2::Argon2::default(),
            password.as_bytes(),
            &hash,
        ).is_ok(),
        Err(_) => false,
    }
}

/// Hashes `password` with a fresh random salt of sixteen letters and digits.
/// Only the hash is ever stored; it carries its salt and verifies against
/// the same password.
pub fn hash_password(password: &str) -> (r: String)
    requires
        password@.len() <= MAX_PASSWORD_CHARS,
    ensures
        argon2_accepts(password@, r@),
        exists|salt: Seq<char>|
            #![trigger is_phc_with_salt(r@, salt)]
            salt.len() == SALT_LENGTH && is_code(salt) && is_phc_with_salt(r@, salt),
{
    let salt = generate_random_code(SALT_LENGTH);
    argon2_hash(password, salt.as_str())
}

} // verus!
