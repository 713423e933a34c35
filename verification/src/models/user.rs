//! A user as the service keeps it.

use vstd::prelude::*;

verus! {

/// What a user may do.
#[derive(Debug, Clone, Copy, PartialEq, Eq, Structural)]
pub enum Role {
    Admin,
    Guest,
    Operator,
}

/// A user; the password is kept as its hash.
#[derive(Debug, Clone)]
pub struct User {
    pub id: uuid::Uuid,
    pub username: String,
    pub password: String,
    pub role: Role,
}

} // verus!
