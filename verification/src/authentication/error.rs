//! What can go wrong with passwords and tokens.

use vstd::prelude::*;

verus! {

#[derive(Debug, Clone, Copy, PartialEq, Eq, Structural)]
pub enum Error {
    Encrypt,
    EncodeToken,
    SecretKey,
}

impl Error {
    /// What the error says of itself.
    pub open spec fn message(self) -> Seq<char> {
        match self {
            Error::Encrypt => "Encrypt Error"@,
            Error::EncodeToken => "Encode Token Error"@,
            Error::SecretKey => "Secret key not found"@,
        }
    }

    /// What the error says of itself.
    pub fn to_string(&self) -> (text: String)
        ensures
            text@ == self.message(),
    {
        match self {
            Error::Encrypt => "Encrypt Error".to_owned(),
            Error::EncodeToken => "Encode Token Error".to_owned(),
            Error::SecretKey => "Secret key not found".to_owned(),
        }
    }
}

} // verus!
