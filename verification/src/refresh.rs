//! `/refresh`: trades the stored refresh token for new tokens, rotates the
//! stored token and keeps the session for thirty more days.

use vstd::prelude::*;
use vstd::utf8::encode_utf8;
use crate::crypto::{
    encrypt_token, decrypt_token, opened_token, aes256gcm_seal, AES_GCM_MAX_PLAINTEXT, NONCE_LEN,
};
use crate::http::{JsonError, json_error, is_json_error};
use crate::keys::{user_key, user_session_key, USER_SESSION_TTL_SECONDS};
use crate::models::{OAuthToken, UserSession};

verus! {

/// A sealed refresh token to store for a provider account.
pub struct TokenRecord {
    pub user_provider_id: i32,
    pub encrypted_refresh_token: Vec<u8>,
    pub nonce: Vec<u8>,
}

/// Why a refresh failed.
#[derive(Clone, Copy, Debug, PartialEq, Eq, Structural)]
pub enum RefreshError {
    NoSession,
    SessionLoadFailed,
    SessionNotFound,
    TokenLoadFailed,
    NoRefreshToken,
    DecryptFailed,
    RefreshFailed,
    EncryptFailed,
    TokenStoreFailed,
    SessionStoreFailed,
}

/// The HTTP status of each refresh failure: 401 where the caller is not (or
/// no longer) entitled to a refresh, 500 where the service failed.
pub open spec fn refresh_error_status(e: RefreshError) -> u16 {
    match e {
        RefreshError::NoSession => 401,
        RefreshError::SessionLoadFailed => 401,
        RefreshError::SessionNotFound => 401,
        RefreshError::TokenLoadFailed => 500,
        RefreshError::NoRefreshToken => 401,
        RefreshError::DecryptFailed => 500,
        RefreshError::RefreshFailed => 401,
        RefreshError::EncryptFailed => 500,
        RefreshError::TokenStoreFailed => 500,
        RefreshError::SessionStoreFailed => 500,
    }
}

/// The JSON error message of each refresh failure.
pub open spec fn refresh_error_message(e: RefreshError) -> Seq<char> {
    match e {
        RefreshError::NoSession => "No session"@,
        RefreshError::SessionLoadFailed => "Failed to load session"@,
        RefreshError::SessionNotFound => "Session not found"@,
        RefreshError::TokenLoadFailed => "Failed to load refresh token"@,
        RefreshError::NoRefreshToken => "No refresh token available"@,
        RefreshError::DecryptFailed => "Failed to decrypt refresh token"@,
        RefreshError::RefreshFailed => "Failed to refresh token"@,
        RefreshError::EncryptFailed => "Failed to encrypt refresh token"@,
        RefreshError::TokenStoreFailed => "Failed to store refreshed token"@,
        RefreshError::SessionStoreFailed => "Failed to store session"@,
    }
}

impl RefreshError {
    /// The answer to a failed refresh.
    pub fn response(&self) -> (r: JsonError)
        ensures
            is_json_error(r, refresh_error_status(*self), refresh_error_message(*self)),
    {
        match self {
            RefreshError::NoSession => json_error(401, "No session"),
            RefreshError::SessionLoadFailed => json_error(401, "Failed to load session"),
            RefreshError::SessionNotFound => json_error(401, "Session not found"),
            RefreshError::TokenLoadFailed => json_error(500, "Failed to load refresh token"),
            RefreshError::NoRefreshToken => json_error(401, "No refresh token available"),
            RefreshError::DecryptFailed => json_error(500, "Failed to decrypt refresh token"),
            RefreshError::RefreshFailed => json_error(401, "Failed to refresh token"),
            RefreshError::EncryptFailed => json_error(500, "Failed to encrypt refresh token"),
            RefreshError::TokenStoreFailed => json_error(500, "Failed to store refreshed token"),
            RefreshError::SessionStoreFailed => json_error(500, "Failed to store session"),
        }
    }
}

/// The tokens the provider granted for the refresh token.
pub struct RefreshGrant {
    pub access_token: String,
    pub refresh_token: Option<String>,
    /// Seconds until the access token expires, if the provider said.
    pub expires_in: Option<u64>,
}

/// The answer to a successful refresh: `{"message": "Session refreshed",
/// "access_token": ..., "expires_in": ...}` with status 200.
pub struct Refreshed {
    pub message: String,
    pub access_token: String,
    pub expires_in: Option<u64>,
}

/// Step 1: the user session named by the cookie must be read.
pub struct RefreshLoadSession {
    session_id: String,
}

/// Starts a refresh; without a session cookie it fails with `No session`.
pub fn refresh_begin(session_cookie: Option<String>) -> (res: Result<RefreshLoadSession, RefreshError>)
    ensures
        match session_cookie {
            None => res == Err::<RefreshLoadSession, RefreshError>(RefreshError::NoSession),
            Some(id) => res matches Ok(s) && s.session_id() == id@,
        },
{
    match session_cookie {
        None => Err(RefreshError::NoSession),
        Some(session_id) => Ok(RefreshLoadSession { session_id }),
    }
}

impl RefreshLoadSession {
    pub closed spec fn session_id(self) -> Seq<char> {
        self.session_id@
    }

    /// The session id from the cookie.
    pub fn session_id_text(&self) -> (id: &str)
        ensures
            id@ == self.session_id(),
    {
        self.session_id.as_str()
    }

    /// The Redis key of the session to read.
    pub fn session_key(&self) -> (k: String)
        ensures
            k@ == user_session_key(self.session_id()),
    {
        user_key(self.session_id.as_str())
    }

    /// Takes the session read from Redis: a read error and a missing session
    /// both answer 401.
    pub fn on_session(self, loaded: Result<Option<UserSession>, ()>) -> (res: Result<RefreshLoadToken, RefreshError>)
        ensures
            match loaded {
                Err(_) => res == Err::<RefreshLoadToken, RefreshError>(RefreshError::SessionLoadFailed),
                Ok(None) => res == Err::<RefreshLoadToken, RefreshError>(RefreshError::SessionNotFound),
                Ok(Some(s)) => res matches Ok(t) && t.session_id() == self.session_id() && t.session() == s,
            },
    {
        match loaded {
            Err(_) => Err(RefreshError::SessionLoadFailed),
            Ok(None) => Err(RefreshError::SessionNotFound),
            Ok(Some(session)) => Ok(RefreshLoadToken { session_id: self.session_id, session }),
        }
    }
}

/// Step 2: the stored refresh token must be read from Postgres.
pub struct RefreshLoadToken {
    session_id: String,
    session: UserSession,
}

impl RefreshLoadToken {
    pub closed spec fn session_id(self) -> Seq<char> {
        self.session_id@
    }

    pub closed spec fn session(self) -> UserSession {
        self.session
    }

    /// The id the token row is looked up by: the session's user id.
    pub fn token_owner_id(&self) -> (id: i32)
        ensures
            id == self.session().user_id,
    {
        self.session.user_id
    }

    /// Takes the token row and opens the refresh token in it with `key`. A
    /// read error answers 500, no row 401, a token that does not open 500.
    /// A row sealed by this service from a token opens to that token.
    pub fn on_token_row(self, row: Result<Option<OAuthToken>, ()>, key: &[u8; 32]) -> (res: Result<RefreshExchange, RefreshError>)
        ensures
            match row {
                Err(_) => res == Err::<RefreshExchange, RefreshError>(RefreshError::TokenLoadFailed),
                Ok(None) => res == Err::<RefreshExchange, RefreshError>(RefreshError::NoRefreshToken),
                Ok(Some(t)) => match opened_token(key@, t.encrypted_refresh_token@, t.refresh_token_nonce@) {
                    None => res == Err::<RefreshExchange, RefreshError>(RefreshError::DecryptFailed),
                    Some(rt) => res matches Ok(x) && x.session_id() == self.session_id()
                        && x.session() == self.session() && x.refresh_token() == rt,
                },
            },
            row matches Ok(Some(t)) ==> forall|token: Seq<char>|
                t.refresh_token_nonce@.len() == NONCE_LEN
                    && encode_utf8(token).len() <= AES_GCM_MAX_PLAINTEXT
                    && #[trigger] aes256gcm_seal(key@, t.refresh_token_nonce@, encode_utf8(token))
                        == t.encrypted_refresh_token@
                    ==> (res matches Ok(x) && x.refresh_token() == token),
    {
        let token_row = match row {
            Err(_) => return Err(RefreshError::TokenLoadFailed),
            Ok(None) => return Err(RefreshError::NoRefreshToken),
            Ok(Some(t)) => t,
        };
        match decrypt_token(key, token_row.encrypted_refresh_token.as_slice(), token_row.refresh_token_nonce.as_slice()) {
            Err(_) => Err(RefreshError::DecryptFailed),
            Ok(refresh_token) => Ok(RefreshExchange { session_id: self.session_id, session: self.session, refresh_token }),
        }
    }
}

/// Step 3: the refresh token must be exchanged with the provider.
pub struct RefreshExchange {
    session_id: String,
    session: UserSession,
    refresh_token: String,
}

/// Where a refresh goes once the provider answered.
pub enum RefreshStep {
    /// The provider rotated the refresh token: store the new one, sealed.
    StoreToken(RefreshTokenStore),
    /// Store the session again.
    StoreSession(RefreshSessionStore),
}

impl RefreshExchange {
    pub closed spec fn session_id(self) -> Seq<char> {
        self.session_id@
    }

    pub closed spec fn session(self) -> UserSession {
        self.session
    }

    pub closed spec fn refresh_token(self) -> Seq<char> {
        self.refresh_token@
    }

    /// The refresh token to hand to the provider.
    pub fn refresh_token_text(&self) -> (t: &str)
        ensures
            t@ == self.refresh_token(),
    {
        self.refresh_token.as_str()
    }

    /// Takes the provider's answer. A refusal answers 401. A rotated refresh
    /// token is sealed under `key` for the session's user id; if it cannot be
    /// sealed the refresh answers 500.
    pub fn on_refreshed(self, grant: Result<RefreshGrant, ()>, key: &[u8; 32]) -> (res: Result<RefreshStep, RefreshError>)
        ensures
            match grant {
                Err(_) => res == Err::<RefreshStep, RefreshError>(RefreshError::RefreshFailed),
                Ok(g) => match g.refresh_token {
                    Some(rt) => if encode_utf8(rt@).len() <= AES_GCM_MAX_PLAINTEXT {
                        res matches Ok(RefreshStep::StoreToken(s)) && s.session_id() == self.session_id()
                            && s.session() == self.session() && s.access_token() == g.access_token@
                            && s.expires_in() == g.expires_in
                            && s.record().user_provider_id == self.session().user_id
                            && s.record().nonce@.len() == NONCE_LEN
                            && s.record().encrypted_refresh_token@ == aes256gcm_seal(key@, s.record().nonce@, encode_utf8(rt@))
                    } else {
                        res == Err::<RefreshStep, RefreshError>(RefreshError::EncryptFailed)
                    },
                    None => res matches Ok(RefreshStep::StoreSession(s)) && s.session_id() == self.session_id()
                        && s.session() == self.session() && s.access_token() == g.access_token@
                        && s.expires_in() == g.expires_in,
                },
            },
    {
        let g = match grant {
            Err(_) => return Err(RefreshError::RefreshFailed),
            Ok(g) => g,
        };
        match g.refresh_token {
            Some(rt) => match encrypt_token(key, rt.as_str()) {
                Err(_) => Err(RefreshError::EncryptFailed),
                Ok((encrypted, nonce)) => {
                    let record = TokenRecord {
                        user_provider_id: self.session.user_id,
                        encrypted_refresh_token: encrypted,
                        nonce,
                    };
                    Ok(RefreshStep::StoreToken(RefreshTokenStore {
                        session_id: self.session_id,
                        session: self.session,
                        access_token: g.access_token,
                        expires_in: g.expires_in,
                        record,
                    }))
                },
            },
            None => Ok(RefreshStep::StoreSession(RefreshSessionStore {
                session_id: self.session_id,
                session: self.session,
                access_token: g.access_token,
                expires_in: g.expires_in,
            })),
        }
    }
}

/// Step 4a: the rotated refresh token must be stored.
pub struct RefreshTokenStore {
    session_id: String,
    session: UserSession,
    access_token: String,
    expires_in: Option<u64>,
    record: TokenRecord,
}

impl RefreshTokenStore {
    pub closed spec fn session_id(self) -> Seq<char> {
        self.session_id@
    }

    pub closed spec fn session(self) -> UserSession {
        self.session
    }

    pub closed spec fn access_token(self) -> Seq<char> {
        self.access_token@
    }

    pub closed spec fn expires_in(self) -> Option<u64> {
        self.expires_in
    }

    pub closed spec fn record(self) -> TokenRecord {
        self.record
    }

    /// The sealed token to store.
    pub fn token_record(&self) -> (r: &TokenRecord)
        ensures
            *r == self.record(),
    {
        &self.record
    }

    /// Takes whether the token was stored; a failure answers 500.
    pub fn on_token_stored(self, stored: bool) -> (res: Result<RefreshSessionStore, RefreshError>)
        ensures
            stored ==> (res matches Ok(s) && s.session_id() == self.session_id() && s.session() == self.session()
                && s.access_token() == self.access_token() && s.expires_in() == self.expires_in()),
            !stored ==> res == Err::<RefreshSessionStore, RefreshError>(RefreshError::TokenStoreFailed),
    {
        if stored {
            Ok(RefreshSessionStore {
                session_id: self.session_id,
                session: self.session,
                access_token: self.access_token,
                expires_in: self.expires_in,
            })
        } else {
            Err(RefreshError::TokenStoreFailed)
        }
    }
}

/// Step 4b: the session must be stored again for thirty days.
pub struct RefreshSessionStore {
    session_id: String,
    session: UserSession,
    access_token: String,
    expires_in: Option<u64>,
}

impl RefreshSessionStore {
    pub closed spec fn session_id(self) -> Seq<char> {
        self.session_id@
    }

    pub closed spec fn session(self) -> UserSession {
        self.session
    }

    pub closed spec fn access_token(self) -> Seq<char> {
        self.access_token@
    }

    pub closed spec fn expires_in(self) -> Option<u64> {
        self.expires_in
    }

    /// The Redis key to store the session under: the one it was read from.
    pub fn session_key(&self) -> (k: String)
        ensures
            k@ == user_session_key(self.session_id()),
    {
        user_key(self.session_id.as_str())
    }

    /// How long the session lives from now on: thirty days.
    pub fn session_ttl_seconds(&self) -> (t: u64)
        ensures
            t == USER_SESSION_TTL_SECONDS,
    {
        USER_SESSION_TTL_SECONDS
    }

    /// The session to store: the one that was read, unchanged.
    pub fn session_to_store(&self) -> (s: &UserSession)
        ensures
            *s == self.session(),
    {
        &self.session
    }

    /// Takes whether the session was stored: a failure answers 500, success
    /// answers with the new access token.
    pub fn on_session_stored(self, stored: bool) -> (res: Result<Refreshed, RefreshError>)
        ensures
            stored ==> (res matches Ok(r) && r.message@ == "Session refreshed"@
                && r.access_token@ == self.access_token() && r.expires_in == self.expires_in()),
            !stored ==> res == Err::<Refreshed, RefreshError>(RefreshError::SessionStoreFailed),
    {
        if stored {
            Ok(Refreshed {
                message: String::from_str("Session refreshed"),
                access_token: self.access_token,
                expires_in: self.expires_in,
            })
        } else {
            Err(RefreshError::SessionStoreFailed)
        }
    }
}

} // verus!
