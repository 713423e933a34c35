//! The cookies that the service reads.

use crate::error::ParseError;
use crate::text::{find_char, first_index, same_text, spells};
use vstd::prelude::*;
use vstd::std_specs::convert::TryFromSpecImpl;

verus! {

/// A cookie that the service knows.
#[derive(Debug, Clone, Copy, PartialEq, Eq, Structural)]
pub enum Cookie {
    TOKEN,
    THEME,
}

impl Cookie {
    /// The name under which the cookie travels.
    pub open spec fn name(self) -> Seq<char> {
        match self {
            Cookie::TOKEN => "jwt"@,
            Cookie::THEME => "theme"@,
        }
    }

    /// The cookie that travels under `name`, if there is one.
    pub open spec fn named(name: Seq<char>) -> Option<Cookie> {
        if name == "jwt"@ {
            Some(Cookie::TOKEN)
        } else if name == "theme"@ {
            Some(Cookie::THEME)
        } else {
            None
        }
    }

    /// The name under which the cookie travels.
    pub fn to_string(&self) -> (text: String)
        ensures
            text@ == self.name(),
    {
        match self {
            Cookie::TOKEN => "jwt".to_owned(),
            Cookie::THEME => "theme".to_owned(),
        }
    }
}

impl TryFrom<&str> for Cookie {
    type Error = ParseError;

    fn try_from(value: &str) -> (r: Result<Cookie, ParseError>) {
        if same_text(value, "jwt") {
            Ok(Cookie::TOKEN)
        } else if same_text(value, "theme") {
            Ok(Cookie::THEME)
        } else {
            Err(ParseError)
        }
    }
}

impl TryFromSpecImpl<&str> for Cookie {
    open spec fn obeys_try_from_spec() -> bool {
        true
    }

    open spec fn try_from_spec(value: &str) -> Result<Cookie, ParseError> {
        match Cookie::named(value@) {
            Some(cookie) => Ok(cookie),
            None => Err(ParseError),
        }
    }
}

/// The value that the cookie `name` has in the part of a header that runs from
/// `from` up to `to`: the part holds `name`, an equals sign and the value, which
/// ends at the next equals sign or with the part.
pub open spec fn value_in_part(header: Seq<char>, from: int, to: int, name: Seq<char>) -> Option<
    Seq<char>,
> {
    let eq = first_index(header, '=', from, to);
    if eq < to && header.subrange(from, eq) == name {
        Some(header.subrange(eq + 1, first_index(header, '=', eq + 1, to)))
    } else {
        None
    }
}

/// The value of the first cookie named `name` in what a header holds from
/// `from` on. The header is a run of parts with a semicolon between each two;
/// names are taken as they stand, blanks and all.
pub open spec fn value_from(header: Seq<char>, from: int, name: Seq<char>) -> Option<Seq<char>>
    decreases header.len() - from,
{
    let to = first_index(header, ';', from, header.len() as int);
    if !(0 <= from <= header.len()) {
        None
    } else if value_in_part(header, from, to, name) is Some {
        value_in_part(header, from, to, name)
    } else if to < header.len() && from <= to {
        value_from(header, to + 1, name)
    } else {
        None
    }
}

/// The value of the first cookie named `name` in a `Cookie` header.
pub fn cookie_value(header: &str, name: &str) -> (r: Option<String>)
    ensures
        match r {
            Some(value) => value_from(header@, 0, name@) == Some(value@),
            None => value_from(header@, 0, name@) is None,
        },
{
    let len = header.unicode_len();
    let mut from: usize = 0;
    loop
        invariant
            from <= len,
            len == header@.len(),
            value_from(header@, 0, name@) == value_from(header@, from as int, name@),
        decreases len - from,
    {
        let to = find_char(header, ';', from, len);
        let eq = find_char(header, '=', from, to);
        if eq < to && spells(header, from, eq, name) {
            let end = find_char(header, '=', eq + 1, to);
            return Some(header.substring_char(eq + 1, end).to_owned());
        }
        if to == len {
            return None;
        }
        from = to + 1;
    }
}

} // verus!
