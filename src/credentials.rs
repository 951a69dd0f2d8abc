//! Password hashing and verification with Argon2.
use vstd::prelude::*;
use argon2::password_hash::SaltString;
use argon2::{Argon2, PasswordHash, PasswordHasher, PasswordVerifier};
use rand::rngs::OsRng;
use crate::error::{Error, Fault};

verus! {

/// Whether a text is a PHC string (`$argon2id$v=19$m=…,t=…,p=…$<salt>$<hash>`).
pub uninterp spec fn phc_parses(s: Seq<char>) -> bool;

/// Whether Argon2, with the parameters and salt that a PHC string carries,
/// derives that string's hash from the password.
pub uninterp spec fn password_matches(password: Seq<char>, hash: Seq<char>) -> bool;

/// The longest password, in characters, that is hashed: Argon2 takes at most
/// 2^32 - 1 bytes, and a character takes at most four.
pub const MAX_PASSWORD_CHARS: usize = 0x3FFF_FFFF;

/// Relies on argon2's PasswordHash::new: it parses a PHC string, or fails.
#[verifier::external_body]
fn parses_as_phc(s: &str) -> (r: bool)
    ensures
        r == phc_parses(s@),
{
    PasswordHash::new(s).is_ok()
}

/// Relies on Argon2::default().verify_password: it recomputes the hash of
/// the password with the parameters and salt of the PHC string, compares it
/// with the stored one, and fails on a mismatch.
#[verifier::external_body]
fn argon2_verify(password: &str, hash: &str) -> (r: bool)
    requires
        phc_parses(hash@),
    ensures
        r == password_matches(password@, hash@),
{
    let parsed = PasswordHash::new(hash).unwrap();
    Argon2::default().verify_password(password.as_bytes(), &parsed).is_ok()
}

/// Relies on Argon2::default().hash_password, with a fresh salt that
/// SaltString::generate draws from the operating system. The PHC string it
/// returns parses, and verifying the same password against it succeeds. It
/// fails only on a password of 2^32 bytes or more.
#[verifier::external_body]
fn argon2_hash(password: &str) -> (r: String)
    requires
        password@.len() <= MAX_PASSWORD_CHARS,
    ensures
        phc_parses(r@),
        password_matches(password@, r@),
{
    let salt = SaltString::generate(OsRng);
    Argon2::default().hash_password(password.as_bytes(), &salt).unwrap().to_string()
}

/// A stored hash that is no PHC string.
#[derive(Clone, Copy, Debug, PartialEq, Eq, Structural)]
pub struct MalformedHash;

/// Hashes a password with a fresh random salt. Whatever salt was drawn, the
/// result is a PHC string that the same password verifies against.
pub fn hash_password(password: &str) -> (r: String)
    requires
        password@.len() <= MAX_PASSWORD_CHARS,
    ensures
        phc_parses(r@),
        password_matches(password@, r@),
{
    argon2_hash(password)
}

/// Checks a password against a stored PHC string: `Ok(false)` for a wrong
/// password, and an error only when the stored text is no PHC string.
pub fn verify_password(password: &str, stored: &str) -> (r: Result<bool, MalformedHash>)
    ensures
        r == (if phc_parses(stored@) {
            Ok::<bool, MalformedHash>(password_matches(password@, stored@))
        } else {
            Err(MalformedHash)
        }),
{
    if parses_as_phc(stored) {
        Ok(argon2_verify(password, stored))
    } else {
        Err(MalformedHash)
    }
}

/// The hash to store for an optional new password: none when no password is
/// given, so that the stored hash is kept.
pub fn hash_optional_password(password: Option<&str>) -> (r: Option<String>)
    requires
        password matches Some(p) ==> p@.len() <= MAX_PASSWORD_CHARS,
    ensures
        password is None <==> r is None,
        r matches Some(h) ==> phc_parses(h@) && password_matches(password->0@, h@),
{
    match password {
        Some(p) => Some(hash_password(p)),
        None => None,
    }
}

/// The hash of a password that must be given: a fault when it is missing.
pub fn require_password(password: Option<&str>) -> (r: Result<String, Error>)
    requires
        password matches Some(p) ==> p@.len() <= MAX_PASSWORD_CHARS,
    ensures
        password is None ==> r == Err::<String, Error>(Error::Domain(Fault::StudentPasswordRequired)),
        password is Some ==> r is Ok && phc_parses(r->Ok_0@) && password_matches(
            password->0@,
            r->Ok_0@,
        ),
{
    match password {
        Some(p) => Ok(hash_password(p)),
        None => Err(Error::Domain(Fault::StudentPasswordRequired)),
    }
}

} // verus!
