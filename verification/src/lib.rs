//! Address-space accounting for an IP address management service: CIDR blocks,
//! their prefixes and host capacity, VLAN tags, subnetting and the devices
//! that occupy a block.

pub mod authentication;
pub mod cookie;
pub mod error;
pub mod handler;
pub mod ipam_services;
pub mod models;
pub mod net;
pub mod response_error;
pub mod text;
pub mod theme;
pub mod type_net;
pub mod user;

use vstd::prelude::*;

verus! {

/// The session token that a request carries in its cookies, or the name of the
/// cookie that it lacks.
pub struct Token(pub Result<String, error::NotFound>);

/// The theme that a request asks for in its cookies.
pub struct Theme(pub theme::Theme);

/// The theme that a request asks for: the one that its first `theme` cookie
/// names, and the light one where the request has no such cookie or the cookie
/// names no theme.
pub open spec fn theme_in(header: Option<Seq<char>>) -> theme::Theme {
    match header {
        Some(text) => match cookie::value_from(text, 0, cookie::Cookie::THEME.name()) {
            Some(value) => match theme::Theme::named(value) {
                Some(theme) => theme,
                None => theme::Theme::Light,
            },
            None => theme::Theme::Light,
        },
        None => theme::Theme::Light,
    }
}

impl Token {
    /// Reads the token off the `Cookie` header of a request; `header` is `None`
    /// where the request has no such header or the header is no text.
    pub fn from_header(header: Option<&str>) -> (r: Token)
        ensures
            match r.0 {
                Ok(token) => header matches Some(text) && cookie::value_from(
                    text@,
                    0,
                    cookie::Cookie::TOKEN.name(),
                ) == Some(token@),
                Err(missing) => {
                    &&& missing.key@ == cookie::Cookie::TOKEN.name()
                    &&& header matches Some(text) ==> cookie::value_from(
                        text@,
                        0,
                        cookie::Cookie::TOKEN.name(),
                    ) is None
                },
            },
    {
        let found = match header {
            Some(text) => cookie::cookie_value(text, "jwt"),
            None => None,
        };
        match found {
            Some(token) => Token(Ok(token)),
            None => Token(Err(error::NotFound { key: cookie::Cookie::TOKEN.to_string() })),
        }
    }
}

impl Theme {
    /// Reads the theme off the `Cookie` header of a request; `header` is `None`
    /// where the request has no such header or the header is no text.
    pub fn from_header(header: Option<&str>) -> (r: Theme)
        ensures
            r.0 == theme_in(
                match header {
                    Some(text) => Some(text@),
                    None => None,
                },
            ),
    {
        let found = match header {
            Some(text) => cookie::cookie_value(text, "theme"),
            None => None,
        };
        match found {
            Some(value) => match theme::Theme::try_from(value.as_str()) {
                Ok(theme) => Theme(theme),
                Err(_) => Theme(theme::Theme::Light),
            },
            None => Theme(theme::Theme::Light),
        }
    }
}

} // verus!
