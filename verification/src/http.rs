//! What the engine needs to know of HTTP: the cookies it sets, the headers it
//! reads, and the status codes it answers with.

use vstd::prelude::*;
use vstd::string::*;

verus! {

/// A header as it arrived with a request.
#[derive(Debug)]
pub enum HeaderValue {
    /// The request has no such header.
    Missing,
    /// The header holds bytes that are not visible ASCII.
    Unreadable,
    /// The header's text.
    Text(String),
}

/// The mathematical content of a [`HeaderValue`].
pub enum HeaderValueView {
    Missing,
    Unreadable,
    Text(Seq<char>),
}

impl View for HeaderValue {
    type V = HeaderValueView;

    open spec fn view(&self) -> HeaderValueView {
        match *self {
            HeaderValue::Missing => HeaderValueView::Missing,
            HeaderValue::Unreadable => HeaderValueView::Unreadable,
            HeaderValue::Text(text) => HeaderValueView::Text(text@),
        }
    }
}

/// The `SameSite` attribute of a cookie.
#[derive(Clone, Copy, Debug, PartialEq, Eq, Structural)]
pub enum SameSite {
    Strict,
    Lax,
    Unset,
}

/// A cookie to set on a response.
#[derive(Debug, PartialEq, Eq)]
pub struct Cookie {
    pub name: String,
    pub value: String,
    pub http_only: bool,
    pub secure: bool,
    pub path: String,
    pub same_site: SameSite,
}

/// The mathematical content of a [`Cookie`].
pub struct CookieView {
    pub name: Seq<char>,
    pub value: Seq<char>,
    pub http_only: bool,
    pub secure: bool,
    pub path: Seq<char>,
    pub same_site: SameSite,
}

impl View for Cookie {
    type V = CookieView;

    open spec fn view(&self) -> CookieView {
        CookieView {
            name: self.name@,
            value: self.value@,
            http_only: self.http_only,
            secure: self.secure,
            path: self.path@,
            same_site: self.same_site,
        }
    }
}

/// The cookie that carries a session token: out of reach of scripts, sent
/// over TLS only, for the whole site, never on a request from another site.
pub open spec fn session_cookie_of(token: Seq<char>) -> CookieView {
    CookieView {
        name: "session"@,
        value: token,
        http_only: true,
        secure: true,
        path: "/"@,
        same_site: SameSite::Strict,
    }
}

/// The cookie that carries a session's CSRF token. Scripts of the site must
/// be able to read it, to send it back in a header.
pub open spec fn csrf_cookie_of(csrf: Seq<char>) -> CookieView {
    CookieView {
        name: "session_csrf"@,
        value: csrf,
        http_only: false,
        secure: false,
        path: "/"@,
        same_site: SameSite::Strict,
    }
}

/// The name of the cookie that carries the session token.
pub fn session_cookie_name() -> (name: &'static str)
    ensures
        name@ == "session"@,
{
    "session"
}

/// The name of the cookie that carries the CSRF token.
pub fn csrf_cookie_name() -> (name: &'static str)
    ensures
        name@ == "session_csrf"@,
{
    "session_csrf"
}

/// The name of the header in which a request echoes the CSRF token.
pub fn csrf_header_name() -> (name: &'static str)
    ensures
        name@ == "X-CSRF-Token"@,
{
    "X-CSRF-Token"
}

/// The name of the header in which the reverse proxy names the client.
pub fn client_address_header_name() -> (name: &'static str)
    ensures
        name@ == "X-Real-IP"@,
{
    "X-Real-IP"
}

/// The cookie that carries a session token.
pub fn session_cookie(token: String) -> (cookie: Cookie)
    ensures
        cookie@ == session_cookie_of(token@),
{
    Cookie {
        name: String::from_str("session"),
        value: token,
        http_only: true,
        secure: true,
        path: String::from_str("/"),
        same_site: SameSite::Strict,
    }
}

/// The cookie that carries a session's CSRF token.
pub fn csrf_cookie(csrf: String) -> (cookie: Cookie)
    ensures
        cookie@ == csrf_cookie_of(csrf@),
{
    Cookie {
        name: String::from_str("session_csrf"),
        value: csrf,
        http_only: false,
        secure: false,
        path: String::from_str("/"),
        same_site: SameSite::Strict,
    }
}

/// 400 Bad Request.
pub const STATUS_BAD_REQUEST: u16 = 400;

/// 401 Unauthorized.
pub const STATUS_UNAUTHORIZED: u16 = 401;

/// 409 Conflict.
pub const STATUS_CONFLICT: u16 = 409;

/// 419, the status for a missing or wrong CSRF token. It is not a standard
/// code; it sets such a request apart from one without a session.
pub const STATUS_BAD_CSRF: u16 = 419;

/// 422 Unprocessable Entity.
pub const STATUS_UNPROCESSABLE_ENTITY: u16 = 422;

/// 429 Too Many Requests.
pub const STATUS_TOO_MANY_REQUESTS: u16 = 429;

/// 500 Internal Server Error.
pub const STATUS_INTERNAL_SERVER_ERROR: u16 = 500;

} // verus!
