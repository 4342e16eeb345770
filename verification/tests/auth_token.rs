use publish_watch::auth::{auth_header_for, build_auth_header, AuthToken};
use publish_watch::errors::CheckError;

#[test]
fn invalid_character_fails_before_any_network_call() {
    let token = AuthToken::new("abc\ndef".to_owned());
    assert!(matches!(build_auth_header(&token), Err(CheckError::Auth)));
}

#[test]
fn control_character_fails() {
    let token = AuthToken::new("abc\u{1}def".to_owned());
    assert!(matches!(build_auth_header(&token), Err(CheckError::Auth)));
}

#[test]
fn ordinary_token_builds_the_real_header() {
    let token = AuthToken::new("Bearer s3cr3t-token".to_owned());
    let header = build_auth_header(&token).expect("token is a valid header value");
    let expected = http::HeaderValue::from_str("Bearer s3cr3t-token").unwrap();
    assert_eq!(header, expected);
}

#[test]
fn tab_is_a_valid_header_character() {
    let token = AuthToken::new("a\tb".to_owned());
    assert!(build_auth_header(&token).is_ok());
}

#[test]
fn missing_token_means_no_header() {
    let r = auth_header_for(&None).expect("no token is never an error");
    assert!(r.is_none());
}

#[test]
fn present_token_becomes_a_header() {
    let r = auth_header_for(&Some(AuthToken::new("tok".to_owned())));
    assert!(matches!(r, Ok(Some(_))));
}

#[test]
fn present_invalid_token_is_an_auth_error() {
    let r = auth_header_for(&Some(AuthToken::new("bad\u{0}token".to_owned())));
    assert!(matches!(r, Err(CheckError::Auth)));
}

#[test]
fn secret_is_read_through_the_explicit_accessor() {
    let token = AuthToken::new("opaque-value".to_owned());
    assert_eq!(token.expose_secret(), "opaque-value");
}
