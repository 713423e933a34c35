//! What went wrong while a request was read.

use vstd::prelude::*;

verus! {

/// A cookie that the request does not carry.
#[derive(Debug)]
pub struct NotFound {
    pub key: String,
}

/// A text that names none of the values it was read for.
#[derive(Debug, Clone, Copy, PartialEq, Eq, Structural)]
pub struct ParseError;

} // verus!
