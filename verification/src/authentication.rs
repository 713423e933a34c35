//! Passwords: checking one against its stored hash, and hashing a new one.

pub mod error;

use vstd::prelude::*;

verus! {

/// What a session token may carry.
pub trait Claim: std::fmt::Debug {

}

/// What the `bcrypt` crate makes of a password and a stored hash: whether the
/// hash is that of the password, or nothing where the hash is malformed.
pub uninterp spec fn bcrypt_verdict(pass: Seq<u8>, hash: Seq<char>) -> Option<bool>;

/// `bcrypt::verify`, its error dropped. Not verified: the verdict is taken to
/// depend on the password and the hash alone.
#[verifier::external_body]
pub(crate) fn bcrypt_verify(pass: &[u8], hash: &str) -> (r: Option<bool>)
    ensures
        r == bcrypt_verdict(pass@, hash@),
{
    bcrypt::verify(pass, hash).ok()
}

/// Whether `hash` is a well-formed hash of the password `pass`: `bcrypt`
/// reads the hash and finds that it is that of the password.
pub open spec fn is_hash_of(pass: Seq<u8>, hash: Seq<char>) -> bool {
    bcrypt_verdict(pass, hash) == Some(true)
}

/// Whether `pass_db` is a well-formed hash of the password `pass`.
pub fn verify_passwd(pass: &[u8], pass_db: &str) -> (r: bool)
    ensures
        r == is_hash_of(pass@, pass_db@),
{
    match bcrypt_verify(pass, pass_db) {
        Some(verdict) => verdict,
        None => false,
    }
}

/// A fresh hash of the password `pass`, one that `verify_passwd` takes for it.
/// Fails where no hash could be made.
pub fn encrypt(pass: &[u8]) -> (r: Result<String, error::Error>)
    ensures
        match r {
            Ok(hash) => is_hash_of(pass@, hash@),
            Err(e) => e == error::Error::Encrypt,
        },
{
    match bcrypt_hash(pass) {
        Some(hash) => Ok(hash),
        None => Err(error::Error::Encrypt),
    }
}

/// `bcrypt::hash` at the crate's default cost, its error dropped. Not
/// verified. The salt is drawn at random, so two calls give two hashes and the
/// call fails where no salt can be drawn; what is claimed holds whatever the
/// salt: `bcrypt::verify` takes the hash for a hash of the password, since it
/// hashes the password again with the cost and the salt that the hash names.
#[verifier::external_body]
pub(crate) fn bcrypt_hash(pass: &[u8]) -> (r: Option<String>)
    ensures
        r matches Some(hash) ==> is_hash_of(pass@, hash@),
{
    bcrypt::hash(pass, bcrypt::DEFAULT_COST).ok()
}

} // verus!
