//! Credential codec: hashing a password into a salted credential string and
//! verifying a password against a stored credential.
//!
//! The hashing primitive is argon2. Whether a credential matches a password is
//! a pure function of the two strings (verification re-derives the hash from
//! the salt and parameters embedded in the credential), so that relation gets
//! a name, `is_hash_of`, and both trusted wrappers speak in terms of it.

use argon2::password_hash::{PasswordHasher, SaltString};
use argon2::{Argon2, PasswordHash, PasswordVerifier};
use rand::rngs::OsRng;
use vstd::prelude::*;

verus! {

/// Whether the credential string is a well-formed salted hash of the
/// password, as decided by argon2's verifier.
pub uninterp spec fn is_hash_of(credential: Seq<char>, password: Seq<char>) -> bool;

/// Whether the string parses as a stored credential (a PHC-format hash), as
/// decided by argon2's credential parser; a pure function of the string.
pub uninterp spec fn parses_as_credential(credential: Seq<char>) -> bool;

/// The hashing primitive itself failed; treated as an internal error.
#[derive(Copy, Clone, PartialEq, Eq, Structural, Debug)]
pub struct EncodingError;

/// Why a password failed verification against a stored credential.
#[derive(Copy, Clone, PartialEq, Eq, Structural, Debug)]
pub enum VerificationError {
    /// The stored credential could not be parsed.
    MalformedCredential,
    /// The password does not match the credential.
    Mismatch,
}

/// Hashes a password with a fresh random salt.
///
/// Relies on argon2's `Argon2::hash_password` (via `PasswordHasher`): the
/// returned PHC string verifies against the hashed password, and PHC strings
/// begin with `'$'`. The salt is drawn from the system generator, so two
/// calls on the same password give independent credentials; nothing is
/// claimed about the credential beyond what holds of every outcome.
#[verifier::external_body]
pub fn encrypt_password(password: &str) -> (r: Result<String, EncodingError>)
    ensures
        r matches Ok(c) ==> is_hash_of(c@, password@),
        r matches Ok(c) ==> parses_as_credential(c@),
        r matches Ok(c) ==> c@.len() > 0 && c@[0] == '$',
{
    let salt = SaltString::generate(&mut OsRng);
    match Argon2::default().hash_password(password.as_bytes(), &salt) {
        Ok(hash) => Ok(hash.to_string()),
        Err(_) => Err(EncodingError),
    }
}

/// Verifies a password against a stored credential.
///
/// Relies on argon2's `PasswordHash::new` and `Argon2::verify_password` (via
/// `PasswordVerifier`): verification re-computes the hash with the salt and
/// parameters taken from the credential and compares in constant time, so
/// success is a pure function of the two strings — exactly `is_hash_of`.
/// An unparsable credential surfaces as `MalformedCredential`, exactly a
/// parseable but non-matching one as `Mismatch`.
#[verifier::external_body]
pub fn validate_password(password: &str, credential: &str) -> (r: Result<(), VerificationError>)
    ensures
        r is Ok <==> is_hash_of(credential@, password@),
        r is Ok ==> parses_as_credential(credential@),
        r matches Err(e) ==> (e == VerificationError::MalformedCredential <==> !parses_as_credential(
            credential@,
        )),
{
    let parsed = match PasswordHash::new(credential) {
        Ok(parsed) => parsed,
        Err(_) => return Err(VerificationError::MalformedCredential),
    };
    match Argon2::default().verify_password(password.as_bytes(), &parsed) {
        Ok(()) => Ok(()),
        Err(_) => Err(VerificationError::Mismatch),
    }
}

} // verus!
