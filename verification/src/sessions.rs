//! What the flows do to the user sessions in Redis, seen as a map from keys
//! to sessions, and what follows for `/me`.
//!
//! `/me` reads the key [`user_session_key`] of the cookie's session id and
//! reports the session found there (see `me::MeLoad`); `/logout` deletes
//! that same key (see `me::logout`); the callback writes a new session there
//! (see `callback::AwaitingSessionStore`); `/refresh` writes back the session
//! it read, under the key it read it from (see `refresh::RefreshSessionStore`).

use vstd::prelude::*;
use crate::keys::{user_session_key, lemma_user_key_injective};
use crate::models::{OAuthProvider, User, UserProvider, UserSession, Timestamp};
use crate::callback::{callback_session, opt_view};
use crate::me::{MeResponse, reports_session};
use crate::callback::{AwaitingSessionStore, AwaitingCleanup};
use crate::http::{SessionCookie, is_session_cookie};
use crate::keys::CALLBACK_SESSION_TTL_SECONDS;

verus! {

/// The session `/me` reports for the cookie, given the sessions Redis holds;
/// `None` is the 401 answer.
pub open spec fn me_reply(store: Map<Seq<char>, UserSession>, session_cookie: Option<Seq<char>>) -> Option<UserSession> {
    match session_cookie {
        None => None,
        Some(id) => if store.contains_key(user_session_key(id)) {
            Some(store[user_session_key(id)])
        } else {
            None
        },
    }
}

/// The sessions Redis holds after `/logout` with the cookie.
pub open spec fn after_logout(store: Map<Seq<char>, UserSession>, session_cookie: Option<Seq<char>>) -> Map<Seq<char>, UserSession> {
    match session_cookie {
        None => store,
        Some(id) => store.remove(user_session_key(id)),
    }
}

/// The sessions Redis holds after the callback stored `s` for the session id.
pub open spec fn after_callback(store: Map<Seq<char>, UserSession>, session_id: Seq<char>, s: UserSession) -> Map<Seq<char>, UserSession> {
    store.insert(user_session_key(session_id), s)
}

/// After logging out, the same cookie no longer has a session: `/me`
/// answers 401.
pub proof fn lemma_logout_ends_session(store: Map<Seq<char>, UserSession>, id: Seq<char>)
    ensures
        me_reply(after_logout(store, Some(id)), Some(id)) is None,
{
}

/// Logging out one session leaves every other session as it was.
pub proof fn lemma_logout_keeps_other_sessions(store: Map<Seq<char>, UserSession>, id: Seq<char>, other: Seq<char>)
    requires
        id != other,
    ensures
        me_reply(after_logout(store, Some(id)), Some(other)) == me_reply(store, Some(other)),
{
    if user_session_key(id) == user_session_key(other) {
        lemma_user_key_injective(id, other);
    }
}

/// Once the callback stored a session, `/me` with that session id reports
/// exactly that session.
pub proof fn lemma_me_reports_stored_session(store: Map<Seq<char>, UserSession>, id: Seq<char>, s: UserSession)
    ensures
        me_reply(after_callback(store, id, s), Some(id)) == Some(s),
{
}

/// Storing a session for one id leaves every other id's session as it was.
pub proof fn lemma_callback_keeps_other_sessions(store: Map<Seq<char>, UserSession>, id: Seq<char>, s: UserSession, other: Seq<char>)
    requires
        id != other,
    ensures
        me_reply(after_callback(store, id, s), Some(other)) == me_reply(store, Some(other)),
{
    if user_session_key(id) == user_session_key(other) {
        lemma_user_key_injective(id, other);
    }
}

/// `/refresh` writes back the session it read, under the key it read it
/// from, so what `/me` reports is unchanged by it.
pub proof fn lemma_refresh_keeps_session(store: Map<Seq<char>, UserSession>, id: Seq<char>, other: Seq<char>)
    requires
        store.contains_key(user_session_key(id)),
    ensures
        me_reply(store.insert(user_session_key(id), store[user_session_key(id)]), Some(other)) == me_reply(store, Some(other)),
{
    assert(store.insert(user_session_key(id), store[user_session_key(id)]) =~= store);
}

/// After a successful callback, the browser's cookie carries a new session
/// id, not the one it came with, and it leads `/me` to exactly the session
/// the callback stored; the cookie lives exactly as long as that session.
///
/// `cleanup` is what `AwaitingSessionStore::on_session_stored` gave for
/// `stored_step`, `cookie` what `AwaitingCleanup::finish` set, and `s` the
/// session stored under `stored_step`'s key.
pub proof fn lemma_callback_cookie_finds_session(
    store: Map<Seq<char>, UserSession>,
    stored_step: AwaitingSessionStore,
    s: UserSession,
    cleanup: AwaitingCleanup,
    cookie: SessionCookie,
)
    requires
        cleanup.old_session_id() == stored_step.ctx().session_id(),
        cleanup.new_session_id() == stored_step.new_session_id(),
        is_session_cookie(cookie, cleanup.new_session_id(), CALLBACK_SESSION_TTL_SECONDS),
        cookie.value@ != cleanup.old_session_id(),
    ensures
        me_reply(after_callback(store, stored_step.new_session_id(), s), Some(cookie.value@)) == Some(s),
        cookie.value@ != stored_step.ctx().session_id(),
        cookie.max_age_seconds == CALLBACK_SESSION_TTL_SECONDS,
{
}

/// After a callback stored the session of the internal user `user` signed in
/// through the linked account `provider`, `/me` reports that user: its id,
/// its internal name (not the provider's account id) and its role, and the
/// linked account's avatar on Discord's CDN when the account has one.
pub proof fn lemma_me_reports_the_signed_in_user(
    session_id: Seq<char>,
    user: User,
    provider: UserProvider,
    now: Timestamp,
    s: UserSession,
    r: MeResponse,
)
    requires
        callback_session(session_id, user, provider, now, s),
        reports_session(r, s),
    ensures
        r.status == 200,
        r.user.id == user.id,
        r.user.username@ == user.username@,
        r.user.role == user.role,
        provider.provider == OAuthProvider::Discord && provider.avatar is Some && provider.avatar->0@.len() > 0
            ==> opt_view(r.user.avatar) == Some(
            "https://cdn.discordapp.com/avatars/"@ + provider.provider_user_id@ + "/"@ + provider.avatar->0@ + ".png"@,
        ),
{
}

/// Without a cookie there is no session, whatever Redis holds.
pub proof fn lemma_no_cookie_no_session(store: Map<Seq<char>, UserSession>)
    ensures
        me_reply(store, None) is None,
{
}

} // verus!
