//! The looks that a page can have.

use crate::error::ParseError;
use crate::text::same_text;
use vstd::prelude::*;
use vstd::std_specs::convert::TryFromSpecImpl;

verus! {

#[derive(Debug, Clone, Copy, PartialEq, Eq, Structural)]
pub enum Theme {
    Dark,
    Light,
}

impl Theme {
    /// The word for the theme.
    pub open spec fn name(self) -> Seq<char> {
        match self {
            Theme::Dark => "dark"@,
            Theme::Light => "light"@,
        }
    }

    /// The theme that a word stands for, if it stands for one.
    pub open spec fn named(name: Seq<char>) -> Option<Theme> {
        if name == "dark"@ {
            Some(Theme::Dark)
        } else if name == "light"@ {
            Some(Theme::Light)
        } else {
            None
        }
    }

    /// The word for the theme.
    pub fn to_string(&self) -> (text: String)
        ensures
            text@ == self.name(),
    {
        match self {
            Theme::Dark => "dark".to_owned(),
            Theme::Light => "light".to_owned(),
        }
    }
}

impl TryFrom<&str> for Theme {
    type Error = ParseError;

    fn try_from(value: &str) -> (r: Result<Theme, ParseError>) {
        if same_text(value, "dark") {
            Ok(Theme::Dark)
        } else if same_text(value, "light") {
            Ok(Theme::Light)
        } else {
            Err(ParseError)
        }
    }
}

impl TryFromSpecImpl<&str> for Theme {
    open spec fn obeys_try_from_spec() -> bool {
        true
    }

    open spec fn try_from_spec(value: &str) -> Result<Theme, ParseError> {
        match Theme::named(value@) {
            Some(theme) => Ok(theme),
            None => Err(ParseError),
        }
    }
}

} // verus!
