//! The session cookie set on a successful login, and the bodies of the
//! `/api/auth/*` endpoints.

use crate::domain::user::User;
use vstd::prelude::*;

verus! {

/// Name of the session cookie.
pub const SESSION_COOKIE: &'static str = "sid";

/// `POST /api/auth/login/start` body.
#[derive(Debug, Clone)]
pub struct LoginStartReq {
    pub email: String,
}

/// `POST /api/auth/login/verify` body.
#[derive(Debug, Clone)]
pub struct LoginVerifyReq {
    pub email: String,
    pub code: String,
}

/// The body of most auth endpoint responses.
#[derive(Debug, Clone)]
pub struct UserBody {
    pub user: User,
}

/// `SameSite` policies a cookie may carry.
#[derive(Debug, Clone, Copy, PartialEq, Eq, Structural)]
pub enum SameSite {
    Strict,
    Lax,
    NoneAllowed,
}

/// The attributes of the session cookie.
#[derive(Debug)]
pub struct SessionCookie {
    pub name: &'static str,
    pub value: String,
    pub http_only: bool,
    pub secure: bool,
    pub same_site: SameSite,
    pub path: &'static str,
    pub max_age_secs: i64,
}

/// The `sid` cookie for a new session token: HttpOnly, `SameSite=Lax`,
/// path `/`, secure as configured, living as long as the session.
pub fn session_cookie(token: String, secure: bool, session_ttl_days: u32) -> (c: SessionCookie)
    ensures
        c.name@ == "sid"@,
        c.value@ == token@,
        c.http_only,
        c.secure == secure,
        c.same_site == SameSite::Lax,
        c.path@ == "/"@,
        c.max_age_secs == session_ttl_days * 24 * 3600,
{
    SessionCookie {
        name: SESSION_COOKIE,
        value: token,
        http_only: true,
        secure,
        same_site: SameSite::Lax,
        path: "/",
        max_age_secs: (session_ttl_days as i64) * 24 * 3600,
    }
}

} // verus!
