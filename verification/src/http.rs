//! What the service answers the browser: cookies, redirects and JSON errors.

use vstd::prelude::*;

verus! {

/// The name of the cookie that carries the session id.
pub open spec fn session_cookie_name() -> Seq<char> {
    "session_id"@
}

/// The session cookie the service sets: secure, HTTP-only, `SameSite=Lax`,
/// for the whole site.
pub struct SessionCookie {
    pub name: String,
    pub value: String,
    pub path: String,
    pub http_only: bool,
    pub secure: bool,
    pub same_site_lax: bool,
    pub max_age_seconds: u64,
}

/// The cookie is the service's session cookie, carrying `value` and living
/// `max_age` seconds.
pub open spec fn is_session_cookie(c: SessionCookie, value: Seq<char>, max_age: u64) -> bool {
    &&& c.name@ == session_cookie_name()
    &&& c.value@ == value
    &&& c.path@ == "/"@
    &&& c.http_only
    &&& c.secure
    &&& c.same_site_lax
    &&& c.max_age_seconds == max_age
}

/// Builds the session cookie for `value`.
pub fn session_cookie(value: String, max_age_seconds: u64) -> (c: SessionCookie)
    ensures
        is_session_cookie(c, value@, max_age_seconds),
{
    SessionCookie {
        name: String::from_str("session_id"),
        value,
        path: String::from_str("/"),
        http_only: true,
        secure: true,
        same_site_lax: true,
        max_age_seconds,
    }
}

/// What happens to the browser's session cookie.
pub enum CookieUpdate {
    Assign(SessionCookie),
    /// The cookie of this name is removed.
    Remove(String),
}

/// The update removes the session cookie.
pub open spec fn removes_session_cookie(u: CookieUpdate) -> bool {
    u matches CookieUpdate::Remove(name) && name@ == session_cookie_name()
}

/// Removes the session cookie.
pub fn remove_session_cookie() -> (u: CookieUpdate)
    ensures
        removes_session_cookie(u),
{
    CookieUpdate::Remove(String::from_str("session_id"))
}

/// A redirect together with what it does to the session cookie.
pub struct RedirectResponse {
    pub cookie: CookieUpdate,
    pub location: String,
}

/// An HTTP status and a JSON body `{"error": message}`.
pub struct JsonError {
    pub status: u16,
    pub message: String,
}

/// The answer is `status` with the error `message`.
pub open spec fn is_json_error(e: JsonError, status: u16, message: Seq<char>) -> bool {
    e.status == status && e.message@ == message
}

/// Builds a JSON error answer.
pub fn json_error(status: u16, message: &str) -> (e: JsonError)
    ensures
        is_json_error(e, status, message@),
{
    JsonError { status, message: String::from_str(message) }
}

} // verus!
