use ipam::cookie::{cookie_value, Cookie};
use ipam::error::ParseError;
use ipam::text::{find_char, same_text, spells};
use ipam::theme;
use ipam::{Theme, Token};

fn by_splitting(header: &str, name: &str) -> Option<String> {
    for part in header.split(';') {
        let fields: Vec<&str> = part.split('=').collect();
        if let (Some(key), Some(value)) = (fields.first(), fields.get(1)) {
            if *key == name {
                return Some(value.to_string());
            }
        }
    }
    None
}

#[test]
fn cookies_go_by_their_names() {
    assert_eq!(Cookie::try_from("jwt"), Ok(Cookie::TOKEN));
    assert_eq!(Cookie::try_from("theme"), Ok(Cookie::THEME));
    assert_eq!(Cookie::try_from("JWT"), Err(ParseError));
    assert_eq!(Cookie::try_from(""), Err(ParseError));
    assert_eq!(Cookie::try_from("jwt "), Err(ParseError));
    assert_eq!(Cookie::TOKEN.to_string(), "jwt");
    assert_eq!(Cookie::THEME.to_string(), "theme");
}

#[test]
fn themes_go_by_their_names() {
    assert_eq!(theme::Theme::try_from("dark"), Ok(theme::Theme::Dark));
    assert_eq!(theme::Theme::try_from("light"), Ok(theme::Theme::Light));
    assert_eq!(theme::Theme::try_from("Dark"), Err(ParseError));
    assert_eq!(theme::Theme::try_from("darker"), Err(ParseError));
    assert_eq!(theme::Theme::Dark.to_string(), "dark");
    assert_eq!(theme::Theme::Light.to_string(), "light");
}

#[test]
fn the_first_cookie_of_a_name_gives_the_value() {
    assert_eq!(cookie_value("jwt=abc", "jwt").as_deref(), Some("abc"));
    assert_eq!(cookie_value("a=b;jwt=abc;theme=dark", "jwt").as_deref(), Some("abc"));
    assert_eq!(cookie_value("a=b;jwt=abc;theme=dark", "theme").as_deref(), Some("dark"));
    assert_eq!(cookie_value("jwt=x;jwt=y", "jwt").as_deref(), Some("x"));
    assert_eq!(cookie_value(";;jwt=1", "jwt").as_deref(), Some("1"));
    assert_eq!(cookie_value("jwt=", "jwt").as_deref(), Some(""));
    assert_eq!(cookie_value("jwt=é;x=y", "jwt").as_deref(), Some("é"));
}

#[test]
fn a_value_ends_at_the_next_equals_sign() {
    assert_eq!(cookie_value("jwt=a=b", "jwt").as_deref(), Some("a"));
    assert_eq!(cookie_value("jwt==b", "jwt").as_deref(), Some(""));
}

#[test]
fn names_are_taken_as_they_stand() {
    assert_eq!(cookie_value("a=b; jwt=abc", "jwt"), None);
    assert_eq!(cookie_value("a=b; jwt=abc", " jwt").as_deref(), Some("abc"));
    assert_eq!(cookie_value("jwt", "jwt"), None);
    assert_eq!(cookie_value("", "jwt"), None);
    assert_eq!(cookie_value("jwtx=1", "jwt"), None);
    assert_eq!(cookie_value("xjwt=1", "jwt"), None);
    assert_eq!(cookie_value("=1", "").as_deref(), Some("1"));
}

#[test]
fn cookies_are_found_as_by_splitting_the_header() {
    let headers = [
        "",
        ";",
        "=",
        "jwt",
        "jwt=",
        "jwt=1",
        "jwt=1;",
        ";jwt=1",
        "a;b;c",
        "a=1;b=2;c=3",
        "theme=dark; jwt=tok",
        "theme=dark;jwt=tok=more;z",
        "jwt;jwt=2",
        "=;jwt==",
        "theme=light;theme=dark",
        "ß=ü;jwt=ñ",
    ];
    for header in headers {
        for name in ["jwt", "theme", "a", "", " jwt", "ß"] {
            assert_eq!(cookie_value(header, name), by_splitting(header, name), "{header:?} {name:?}");
        }
    }
}

#[test]
fn the_token_is_the_jwt_cookie() {
    let token = Token::from_header(Some("theme=dark;jwt=abc.def.ghi"));
    assert_eq!(token.0.unwrap(), "abc.def.ghi");
}

#[test]
fn a_request_without_the_cookie_has_no_token() {
    for header in [None, Some(""), Some("theme=dark"), Some("a=b; jwt=abc")] {
        let missing = Token::from_header(header).0.unwrap_err();
        assert_eq!(missing.key, "jwt");
    }
}

#[test]
fn the_theme_is_what_the_first_theme_cookie_names() {
    assert_eq!(Theme::from_header(Some("theme=dark")).0, theme::Theme::Dark);
    assert_eq!(Theme::from_header(Some("jwt=x;theme=dark")).0, theme::Theme::Dark);
    assert_eq!(Theme::from_header(Some("theme=light")).0, theme::Theme::Light);
    assert_eq!(Theme::from_header(Some("theme=dark;theme=light")).0, theme::Theme::Dark);
}

#[test]
fn the_theme_is_light_unless_told() {
    assert_eq!(Theme::from_header(None).0, theme::Theme::Light);
    assert_eq!(Theme::from_header(Some("")).0, theme::Theme::Light);
    assert_eq!(Theme::from_header(Some("theme=blue")).0, theme::Theme::Light);
    assert_eq!(Theme::from_header(Some("theme=blue;theme=dark")).0, theme::Theme::Light);
    assert_eq!(Theme::from_header(Some("jwt=x; theme=dark")).0, theme::Theme::Light);
}

#[test]
fn characters_are_found_where_they_first_stand() {
    assert_eq!(find_char("a;b;c", ';', 0, 5), 1);
    assert_eq!(find_char("a;b;c", ';', 2, 5), 3);
    assert_eq!(find_char("a;b;c", ';', 4, 5), 5);
    assert_eq!(find_char("a;b;c", ';', 0, 1), 1);
    assert_eq!(find_char("é;", ';', 0, 2), 1);
}

#[test]
fn texts_are_compared_character_by_character() {
    assert!(same_text("", ""));
    assert!(same_text("jwt", "jwt"));
    assert!(!same_text("jwt", "jwT"));
    assert!(!same_text("jwt", "jw"));
    assert!(spells("xxjwtyy", 2, 5, "jwt"));
    assert!(!spells("xxjwtyy", 2, 6, "jwt"));
    assert!(spells("abc", 1, 1, ""));
}
