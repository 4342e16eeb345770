//! The optional registry token and the one place it is ever read: building
//! the `Authorization` header for a sparse-index request.
use vstd::prelude::*;

use crate::errors::CheckError;

verus! {

#[verifier::external_type_specification]
#[verifier::external_body]
pub struct ExHeaderValue(http::HeaderValue);

/// A secret token. The secret is reachable only through `expose_secret`;
/// the type has no formatting, cloning or comparison, so the value cannot
/// leak through a log line or an error message.
pub struct AuthToken {
    secret: String,
}

impl View for AuthToken {
    type V = Seq<char>;

    closed spec fn view(&self) -> Seq<char> {
        self.secret@
    }
}

impl AuthToken {
    pub fn new(secret: String) -> (t: AuthToken)
        ensures
            t@ == secret@,
    {
        AuthToken { secret }
    }

    /// The single explicit accessor for the secret value.
    pub fn expose_secret(&self) -> (r: &str)
        ensures
            r@ == self@,
    {
        self.secret.as_str()
    }
}

/// A character that may stand in an HTTP header value: horizontal tab, or
/// any character other than the control characters below space and delete.
/// (Characters above 127 encode to bytes of 128 and above, which header
/// values accept as opaque octets.)
pub open spec fn valid_header_char(c: char) -> bool {
    c == '\t' || (c as u32 >= 32 && c as u32 != 127)
}

/// Every character of the text may stand in an HTTP header value.
pub open spec fn valid_header_text(s: Seq<char>) -> bool {
    forall|i: int| 0 <= i < s.len() ==> valid_header_char(s[i])
}

/// Relies on http::HeaderValue::from_str: it succeeds exactly when every
/// byte of the text is at least 32 and not 127, or is horizontal tab,
/// which over characters is `valid_header_text`.
#[verifier::external_body]
fn header_value_from_str(s: &str) -> (r: Option<http::HeaderValue>)
    ensures
        r is Some <==> valid_header_text(s@),
{
    http::HeaderValue::from_str(s).ok()
}

/// Build the `Authorization` header value from a token.
///
/// Fails with `CheckError::Auth` exactly when the token holds a character
/// that cannot stand in an HTTP header value. This is decided at
/// request-construction time, before any network call.
pub fn build_auth_header(token: &AuthToken) -> (r: Result<http::HeaderValue, CheckError>)
    ensures
        r is Ok <==> valid_header_text(token@),
        r is Err ==> r->Err_0 is Auth,
{
    match header_value_from_str(token.expose_secret()) {
        Some(v) => Ok(v),
        None => Err(CheckError::Auth),
    }
}

/// The header for an optional token: no token means no header, and only a
/// malformed token is an error.
pub fn auth_header_for(token: &Option<AuthToken>) -> (r: Result<Option<http::HeaderValue>, CheckError>)
    ensures
        match token {
            Option::None => r is Ok && r->Ok_0 is None,
            Option::Some(t) => {
                &&& r is Ok <==> valid_header_text(t@)
                &&& r is Ok ==> r->Ok_0 is Some
                &&& r is Err ==> r->Err_0 is Auth
            },
        },
{
    match token {
        Option::None => Ok(Option::None),
        Option::Some(t) => match build_auth_header(t) {
            Ok(v) => Ok(Option::Some(v)),
            Err(e) => Err(e),
        },
    }
}

} // verus!
