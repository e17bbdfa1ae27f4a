//! `/me` and `/logout`: reading and ending the session the cookie names.

use vstd::prelude::*;
use crate::callback::opt_view;
use crate::http::{RedirectResponse, remove_session_cookie, removes_session_cookie};
use crate::keys::{user_key, user_session_key, USER_SESSION_TTL_SECONDS};
use crate::models::{SessionUser, UserRole, UserSession, avatar_url_of};

verus! {

/// The status and user `/me` answers with.
pub struct MeResponse {
    pub status: u16,
    pub user: SessionUser,
}

/// The answer to a request without a usable session: 401 and a placeholder
/// user with id -1, no name, no avatar and the role `user`.
pub open spec fn is_unauthorized(r: MeResponse) -> bool {
    &&& r.status == 401
    &&& r.user.id == -1
    &&& r.user.username@ == Seq::<char>::empty()
    &&& r.user.avatar is None
    &&& r.user.role == UserRole::User
}

/// The answer for an existing session: 200 and the session's user, with the
/// avatar URL resolved.
pub open spec fn reports_session(r: MeResponse, s: UserSession) -> bool {
    &&& r.status == 200
    &&& r.user.id == s.user_id
    &&& r.user.username@ == s.username@
    &&& opt_view(r.user.avatar) == avatar_url_of(s)
    &&& r.user.role == s.role
}

/// `/me` reports a found session's own user: status 200, and the session's
/// user id, name and role, with the avatar URL the session resolves to.
pub proof fn lemma_reported_user_is_the_sessions(r: MeResponse, s: UserSession)
    requires
        reports_session(r, s),
    ensures
        r.status == 200,
        r.user.id == s.user_id,
        r.user.username@ == s.username@,
        r.user.role == s.role,
        opt_view(r.user.avatar) == avatar_url_of(s),
{
}

/// The 401 answer.
pub fn unauthorized() -> (r: MeResponse)
    ensures
        is_unauthorized(r),
{
    MeResponse {
        status: 401,
        user: SessionUser { id: -1, username: String::new(), avatar: None, role: UserRole::User },
    }
}

/// What `/me` does first.
pub enum MeStep {
    /// No session cookie: answer 401.
    Unauthorized(MeResponse),
    /// Read the session from Redis.
    Load(MeLoad),
}

/// Starts `/me` for the session cookie, if any.
pub fn me_begin(session_cookie: Option<String>) -> (step: MeStep)
    ensures
        match session_cookie {
            None => step matches MeStep::Unauthorized(r) && is_unauthorized(r),
            Some(id) => step matches MeStep::Load(l) && l.session_id() == id@,
        },
{
    match session_cookie {
        None => MeStep::Unauthorized(unauthorized()),
        Some(session_id) => MeStep::Load(MeLoad { session_id }),
    }
}

/// `/me` must read the session the cookie names.
pub struct MeLoad {
    session_id: String,
}

/// What `/me` answers once the session was read, and whether it first keeps
/// the session for thirty more days (the outcome of that does not matter).
pub struct MeAnswer {
    /// The key whose lifetime to extend, and the new lifetime.
    pub extend_ttl: Option<(String, u64)>,
    pub response: MeResponse,
}

impl MeLoad {
    pub closed spec fn session_id(self) -> Seq<char> {
        self.session_id@
    }

    /// The Redis key of the session.
    pub fn session_key(&self) -> (k: String)
        ensures
            k@ == user_session_key(self.session_id()),
    {
        user_key(self.session_id.as_str())
    }

    /// Takes what reading the session gave (a failed read, a missing key and
    /// an unreadable value all count as no session). A found session has its
    /// lifetime extended to thirty days and is reported; otherwise 401.
    pub fn on_session(self, loaded: Result<Option<UserSession>, ()>) -> (a: MeAnswer)
        ensures
            match loaded {
                Ok(Some(s)) => reports_session(a.response, s) && (a.extend_ttl matches Some((k, ttl))
                    && k@ == user_session_key(self.session_id()) && ttl == USER_SESSION_TTL_SECONDS),
                _ => is_unauthorized(a.response) && a.extend_ttl is None,
            },
            loaded matches Ok(Some(s)) ==> a.response.status == 200 && a.response.user.id == s.user_id
                && a.response.user.username@ == s.username@ && a.response.user.role == s.role
                && opt_view(a.response.user.avatar) == avatar_url_of(s),
            !(loaded matches Ok(Some(_))) ==> a.response.status == 401 && a.response.user.id == -1
                && a.response.user.role == UserRole::User && a.response.user.avatar is None,
    {
        match loaded {
            Ok(Some(s)) => {
                let key = user_key(self.session_id.as_str());
                let avatar = s.avatar_url();
                let user = SessionUser { id: s.user_id, username: s.username, avatar, role: s.role };
                MeAnswer { extend_ttl: Some((key, USER_SESSION_TTL_SECONDS)), response: MeResponse { status: 200, user } }
            },
            _ => MeAnswer { extend_ttl: None, response: unauthorized() },
        }
    }
}

/// What `/logout` does: delete the session the cookie names (if any, on a
/// best-effort basis), remove the cookie, and go home.
pub struct LogoutPlan {
    pub delete_key: Option<String>,
    pub response: RedirectResponse,
}

/// Plans `/logout` for the session cookie, if any.
pub fn logout(session_cookie: Option<String>) -> (p: LogoutPlan)
    ensures
        match session_cookie {
            Some(id) => p.delete_key matches Some(k) && k@ == user_session_key(id@),
            None => p.delete_key is None,
        },
        removes_session_cookie(p.response.cookie),
        p.response.location@ == "/"@,
{
    let delete_key = match session_cookie {
        Some(id) => Some(user_key(id.as_str())),
        None => None,
    };
    LogoutPlan { delete_key, response: RedirectResponse { cookie: remove_session_cookie(), location: String::from_str("/") } }
}

} // verus!
