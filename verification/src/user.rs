//! The users of the service and what they may present.

use crate::authentication::{bcrypt_hash, bcrypt_verify, is_hash_of};
use vstd::prelude::*;

verus! {

/// What a user may do.
#[derive(Debug, Clone, Copy, PartialEq, Eq, Structural)]
pub enum Role {
    Admin,
    Guest,
    Operator,
}

/// A user as the service keeps it; the password is kept as its hash.
pub struct User {
    pub id: uuid::Uuid,
    pub username: String,
    pub password: String,
    pub role: Role,
}

/// What a session token says of its bearer.
#[derive(Debug)]
pub struct Claims {
    pub exp: usize,
    pub id: uuid::Uuid,
    pub role: Role,
}

impl Claims {
    /// The claims of `user`, stamped with the time `now`, in seconds since the
    /// start of 1970.
    pub fn at(user: &User, now: usize) -> (claims: Claims)
        ensures
            claims.exp == now,
            claims.id == user.id,
            claims.role == user.role,
    {
        Claims { exp: now, id: user.id, role: user.role }
    }
}

/// The outcome of a check of credentials.
pub enum Verify<T> {
    Authorized(T),
    Unauthorized,
}

#[derive(Debug, Clone, Copy, PartialEq, Eq, Structural)]
pub enum Error {
    Encrypt,
    EncodeToken,
    CreateDefaultUser,
    SecretKey,
}

impl Error {
    /// What the error says of itself.
    pub open spec fn message(self) -> Seq<char> {
        match self {
            Error::Encrypt => "Encrypt Error"@,
            Error::EncodeToken => "Encode Token Error"@,
            Error::SecretKey => "Secret key not found"@,
            Error::CreateDefaultUser => "Create user default error"@,
        }
    }

    /// What the error says of itself.
    pub fn to_string(&self) -> (text: String)
        ensures
            text@ == self.message(),
    {
        match self {
            Error::Encrypt => "Encrypt Error".to_owned(),
            Error::EncodeToken => "Encode Token Error".to_owned(),
            Error::SecretKey => "Secret key not found".to_owned(),
            Error::CreateDefaultUser => "Create user default error".to_owned(),
        }
    }
}

/// Lets a password through if `pass_db` is a well-formed hash of it.
pub fn verify_pass(pass: &[u8], pass_db: &str) -> (r: Verify<bool>)
    ensures
        r == if is_hash_of(pass@, pass_db@) {
            Verify::Authorized(true)
        } else {
            Verify::<bool>::Unauthorized
        },
{
    match bcrypt_verify(pass, pass_db) {
        Some(true) => Verify::Authorized(true),
        _ => Verify::Unauthorized,
    }
}

/// A fresh hash of the password `pass`, one that `verify_pass` lets it through with.
pub fn encrypt(pass: &[u8]) -> (r: Result<String, Error>)
    ensures
        match r {
            Ok(hash) => is_hash_of(pass@, hash@),
            Err(e) => e == Error::Encrypt,
        },
{
    match bcrypt_hash(pass) {
        Some(hash) => Ok(hash),
        None => Err(Error::Encrypt),
    }
}

} // verus!
