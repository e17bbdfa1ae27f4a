//! Names of the Redis keys under which sessions live, and how long they live.

use vstd::prelude::*;

verus! {

/// How long a user session stays in Redis once `/me` or `/refresh` touched it:
/// thirty days.
pub const USER_SESSION_TTL_SECONDS: u64 = 30 * 24 * 3600;

/// How long the state of a started login stays in Redis: ten minutes.
pub const OAUTH_SESSION_TTL_SECONDS: u64 = 10 * 60;

/// How long a session created by the OAuth callback lives, in Redis and in the
/// browser's cookie: one day.
pub const CALLBACK_SESSION_TTL_SECONDS: u64 = 24 * 3600;

/// The prefix of the keys that hold a started login.
pub open spec fn oauth_prefix() -> Seq<char> {
    "oauth_session:"@
}

/// The prefix of the keys that hold a logged-in user's session.
pub open spec fn user_prefix() -> Seq<char> {
    "user_session:"@
}

/// The key of the login state that belongs to the session id `id`.
pub open spec fn oauth_session_key(id: Seq<char>) -> Seq<char> {
    oauth_prefix() + id
}

/// The key of the user session that belongs to the session id `id`.
pub open spec fn user_session_key(id: Seq<char>) -> Seq<char> {
    user_prefix() + id
}

/// The Redis key of a started login: `oauth_session:{session_id}`.
pub fn oauth_key(session_id: &str) -> (key: String)
    ensures
        key@ == oauth_session_key(session_id@),
{
    let mut key = String::from_str("oauth_session:");
    key.append(session_id);
    key
}

/// The Redis key of a user session: `user_session:{session_id}`.
pub fn user_key(session_id: &str) -> (key: String)
    ensures
        key@ == user_session_key(session_id@),
{
    let mut key = String::from_str("user_session:");
    key.append(session_id);
    key
}

/// A login's key and a user session's key never coincide, whatever the two
/// session ids are: deleting or overwriting one kind never touches the other.
pub proof fn lemma_key_kinds_disjoint(a: Seq<char>, b: Seq<char>)
    ensures
        oauth_session_key(a) != user_session_key(b),
{
    reveal_strlit("oauth_session:");
    reveal_strlit("user_session:");
    assert(oauth_session_key(a)[0] == 'o');
    assert(user_session_key(b)[0] == 'u');
}

/// Two session ids share a login key only if they are the same id.
pub proof fn lemma_oauth_key_injective(a: Seq<char>, b: Seq<char>)
    requires
        oauth_session_key(a) == oauth_session_key(b),
    ensures
        a == b,
{
    let p = oauth_prefix();
    assert(a =~= oauth_session_key(a).subrange(p.len() as int, oauth_session_key(a).len() as int));
    assert(b =~= oauth_session_key(b).subrange(p.len() as int, oauth_session_key(b).len() as int));
}

/// Two session ids share a user-session key only if they are the same id.
pub proof fn lemma_user_key_injective(a: Seq<char>, b: Seq<char>)
    requires
        user_session_key(a) == user_session_key(b),
    ensures
        a == b,
{
    let p = user_prefix();
    assert(a =~= user_session_key(a).subrange(p.len() as int, user_session_key(a).len() as int));
    assert(b =~= user_session_key(b).subrange(p.len() as int, user_session_key(b).len() as int));
}

} // verus!
