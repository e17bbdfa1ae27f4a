//! The OAuth callback: from the provider's redirect back to a stored user
//! session and a session cookie.
//!
//! Each step is a state that says what the service must do next (read Redis,
//! ask the provider, read or write Postgres) and a method that takes what came
//! back and moves on, or stops with the error the browser is redirected with.
//! A state can only be reached through the steps before it.

use vstd::prelude::*;
use crate::http::{
    RedirectResponse, CookieUpdate, session_cookie, is_session_cookie, remove_session_cookie,
    removes_session_cookie,
};
use crate::keys::{oauth_key, user_key, oauth_session_key, user_session_key, CALLBACK_SESSION_TTL_SECONDS};
use crate::models::{DiscordUser, OAuthProvider, OAuthSession, Timestamp, User, UserProvider, UserRole, UserSession};
use crate::oauth::new_session_id;

verus! {

/// The text of an optional string.
pub open spec fn opt_view(o: Option<String>) -> Option<Seq<char>> {
    match o {
        Some(s) => Some(s@),
        None => None,
    }
}

/// The returned OAuth `state` passes the CSRF check against the stored token:
/// it is present and equals the token.
pub open spec fn csrf_accepts(csrf_token: Seq<char>, returned_state: Option<Seq<char>>) -> bool {
    returned_state == Some(csrf_token)
}

/// Checks the `state` the provider sent back against the CSRF token stored
/// when the login started. A missing or different `state` fails with
/// `csrf_mismatch`.
pub fn verify_csrf(oauth_session: &OAuthSession, returned_state: Option<&String>) -> (res: Result<(), &'static str>)
    ensures
        res is Ok <==> csrf_accepts(
            oauth_session.csrf_token@,
            match returned_state {
                Some(s) => Some(s@),
                None => None,
            },
        ),
        res matches Err(e) ==> e@ == "csrf_mismatch"@,
{
    match returned_state {
        Some(state) => if *state == oauth_session.csrf_token {
            Ok(())
        } else {
            Err("csrf_mismatch")
        },
        None => Err("csrf_mismatch"),
    }
}

/// Why a callback failed. Each failure sends the browser to the error page.
#[derive(Clone, Copy, Debug, PartialEq, Eq, Structural)]
pub enum CallbackError {
    MissingSession,
    SessionInvalid,
    CsrfMismatch,
    MissingCode,
    TokenExchangeFailed,
    UserFetchFailed,
    UserLookupFailed,
    UserInsertFailed,
    ProviderUpsertFailed,
    SessionStoreFailed,
}

/// The code under which each failure reaches the error page. A failed token
/// exchange reports the error page's own path.
pub open spec fn callback_error_code(e: CallbackError) -> Seq<char> {
    match e {
        CallbackError::MissingSession => "missing_session"@,
        CallbackError::SessionInvalid => "session_invalid"@,
        CallbackError::CsrfMismatch => "csrf_mismatch"@,
        CallbackError::MissingCode => "missing_code"@,
        CallbackError::TokenExchangeFailed => "/auth/error"@,
        CallbackError::UserFetchFailed => "user_fetch_failed"@,
        CallbackError::UserLookupFailed => "user_lookup_failed"@,
        CallbackError::UserInsertFailed => "user_insert_failed"@,
        CallbackError::ProviderUpsertFailed => "provider_upsert_failed"@,
        CallbackError::SessionStoreFailed => "session_store_failed"@,
    }
}

/// Where a failed callback sends the browser.
pub open spec fn callback_error_location(e: CallbackError) -> Seq<char> {
    "/auth/error?error="@ + callback_error_code(e)
}

impl CallbackError {
    /// The failure's code.
    pub fn code(&self) -> (c: &'static str)
        ensures
            c@ == callback_error_code(*self),
    {
        match self {
            CallbackError::MissingSession => "missing_session",
            CallbackError::SessionInvalid => "session_invalid",
            CallbackError::CsrfMismatch => "csrf_mismatch",
            CallbackError::MissingCode => "missing_code",
            CallbackError::TokenExchangeFailed => "/auth/error",
            CallbackError::UserFetchFailed => "user_fetch_failed",
            CallbackError::UserLookupFailed => "user_lookup_failed",
            CallbackError::UserInsertFailed => "user_insert_failed",
            CallbackError::ProviderUpsertFailed => "provider_upsert_failed",
            CallbackError::SessionStoreFailed => "session_store_failed",
        }
    }

    /// The answer to a failed callback: the session cookie is removed and the
    /// browser goes to `/auth/error?error={code}`.
    pub fn response(&self) -> (r: RedirectResponse)
        ensures
            removes_session_cookie(r.cookie),
            r.location@ == callback_error_location(*self),
    {
        let mut location = String::from_str("/auth/error?error=");
        location.append(self.code());
        RedirectResponse { cookie: remove_session_cookie(), location }
    }
}

/// What the callback request carries: the session cookie, and the `code` and
/// `state` query parameters.
pub struct CallbackRequest {
    pub session_cookie: Option<String>,
    pub code: Option<String>,
    pub state: Option<String>,
}

/// What the callback keeps of the tokens the provider granted for the
/// authorization code: the access token, used once to fetch the user. No
/// token is stored.
pub struct TokenGrant {
    pub access_token: String,
}

/// A new internal user to insert.
pub struct NewUser {
    pub username: String,
    pub avatar: Option<String>,
    pub role: UserRole,
}

/// A provider account to insert or update.
pub struct ProviderUpsert {
    pub user_id: i32,
    pub provider: OAuthProvider,
    pub provider_user_id: String,
    pub discriminator: Option<String>,
    pub avatar: Option<String>,
}

/// The login state checked against the callback: found in Redis for the
/// cookie's session id, with a code and a `state` that passed the CSRF check.
pub struct Validated {
    session_id: String,
    oauth_session: OAuthSession,
    code: String,
    returned_state: Option<String>,
}

impl Validated {
    #[verifier::type_invariant]
    spec fn csrf_checked(self) -> bool {
        csrf_accepts(self.oauth_session.csrf_token@, opt_view(self.returned_state))
    }

    /// The session id from the cookie.
    pub closed spec fn session_id(self) -> Seq<char> {
        self.session_id@
    }

    /// The login state found in Redis.
    pub closed spec fn oauth_session(self) -> OAuthSession {
        self.oauth_session
    }

    /// The authorization code.
    pub closed spec fn code(self) -> Seq<char> {
        self.code@
    }

    /// The `state` parameter the provider sent back.
    pub closed spec fn returned_state(self) -> Option<Seq<char>> {
        opt_view(self.returned_state)
    }
}

/// Step 1: the login state must be read from Redis.
pub struct AwaitingOAuthSession {
    session_id: String,
    code: Option<String>,
    returned_state: Option<String>,
}

/// Starts a callback. Without a session cookie it fails with
/// `missing_session`.
pub fn callback_begin(req: CallbackRequest) -> (res: Result<AwaitingOAuthSession, CallbackError>)
    ensures
        match req.session_cookie {
            None => res == Err::<AwaitingOAuthSession, CallbackError>(CallbackError::MissingSession),
            Some(id) => res matches Ok(s) && s.session_id() == id@ && s.code() == opt_view(req.code)
                && s.returned_state() == opt_view(req.state),
        },
{
    match req.session_cookie {
        None => Err(CallbackError::MissingSession),
        Some(session_id) => Ok(AwaitingOAuthSession { session_id, code: req.code, returned_state: req.state }),
    }
}

impl AwaitingOAuthSession {
    pub closed spec fn session_id(self) -> Seq<char> {
        self.session_id@
    }

    /// The session id from the cookie.
    pub fn session_id_text(&self) -> (id: &str)
        ensures
            id@ == self.session_id(),
    {
        self.session_id.as_str()
    }

    pub closed spec fn code(self) -> Option<Seq<char>> {
        opt_view(self.code)
    }

    pub closed spec fn returned_state(self) -> Option<Seq<char>> {
        opt_view(self.returned_state)
    }

    /// The Redis key of the login state to read.
    pub fn oauth_session_key(&self) -> (k: String)
        ensures
            k@ == oauth_session_key(self.session_id()),
    {
        oauth_key(self.session_id.as_str())
    }

    /// Takes what Redis gave for the login state. A read error or a missing
    /// state fails with `session_invalid`; then a `state` that is missing or
    /// not the stored CSRF token fails with `csrf_mismatch`; then a missing
    /// code fails with `missing_code`.
    pub fn on_oauth_session(self, loaded: Result<Option<OAuthSession>, ()>) -> (res: Result<AwaitingTokenExchange, CallbackError>)
        ensures
            match loaded {
                Ok(Some(os)) => if !csrf_accepts(os.csrf_token@, self.returned_state()) {
                    res == Err::<AwaitingTokenExchange, CallbackError>(CallbackError::CsrfMismatch)
                } else if self.code() is None {
                    res == Err::<AwaitingTokenExchange, CallbackError>(CallbackError::MissingCode)
                } else {
                    res matches Ok(t) && t.ctx().session_id() == self.session_id()
                        && t.ctx().oauth_session() == os && Some(t.ctx().code()) == self.code()
                        && t.ctx().returned_state() == self.returned_state()
                },
                _ => res == Err::<AwaitingTokenExchange, CallbackError>(CallbackError::SessionInvalid),
            },
    {
        let oauth_session = match loaded {
            Ok(Some(s)) => s,
            _ => return Err(CallbackError::SessionInvalid),
        };
        if verify_csrf(&oauth_session, self.returned_state.as_ref()).is_err() {
            return Err(CallbackError::CsrfMismatch);
        }
        let code = match self.code {
            Some(c) => c,
            None => return Err(CallbackError::MissingCode),
        };
        let ctx = Validated {
            session_id: self.session_id,
            oauth_session,
            code,
            returned_state: self.returned_state,
        };
        Ok(AwaitingTokenExchange { ctx })
    }
}

/// Step 2: the authorization code must be exchanged for tokens, with the
/// stored PKCE verifier.
pub struct AwaitingTokenExchange {
    ctx: Validated,
}

impl AwaitingTokenExchange {
    pub closed spec fn ctx(self) -> Validated {
        self.ctx
    }

    /// The authorization code to exchange.
    pub fn code(&self) -> (c: &str)
        ensures
            c@ == self.ctx().code(),
    {
        self.ctx.code.as_str()
    }

    /// The PKCE verifier stored when the login started.
    pub fn pkce_verifier(&self) -> (v: &str)
        ensures
            v@ == self.ctx().oauth_session().pkce_verifier@,
    {
        self.ctx.oauth_session.pkce_verifier.as_str()
    }

    /// Takes the exchange's result; a failed exchange fails the callback and
    /// creates no session.
    pub fn on_token(self, grant: Result<TokenGrant, ()>) -> (res: Result<AwaitingDiscordUser, CallbackError>)
        ensures
            match grant {
                Err(_) => res == Err::<AwaitingDiscordUser, CallbackError>(CallbackError::TokenExchangeFailed),
                Ok(g) => res matches Ok(s) && s.ctx() == self.ctx() && s.grant() == g,
            },
    {
        match grant {
            Err(_) => Err(CallbackError::TokenExchangeFailed),
            Ok(g) => Ok(AwaitingDiscordUser { ctx: self.ctx, grant: g }),
        }
    }
}

/// Step 3: the provider's user must be fetched with the access token.
pub struct AwaitingDiscordUser {
    ctx: Validated,
    grant: TokenGrant,
}

impl AwaitingDiscordUser {
    pub closed spec fn ctx(self) -> Validated {
        self.ctx
    }

    pub closed spec fn grant(self) -> TokenGrant {
        self.grant
    }

    /// The access token to fetch the user with. It is used for this request
    /// only and never stored.
    pub fn access_token(&self) -> (t: &str)
        ensures
            t@ == self.grant().access_token@,
    {
        self.grant.access_token.as_str()
    }

    /// Takes the fetched user, or fails with `user_fetch_failed`.
    pub fn on_discord_user(self, user: Result<DiscordUser, ()>) -> (res: Result<AwaitingProviderLookup, CallbackError>)
        ensures
            match user {
                Err(_) => res == Err::<AwaitingProviderLookup, CallbackError>(CallbackError::UserFetchFailed),
                Ok(u) => res matches Ok(s) && s.ctx() == self.ctx() && s.grant() == self.grant()
                    && s.discord_user() == u,
            },
    {
        match user {
            Err(_) => Err(CallbackError::UserFetchFailed),
            Ok(u) => Ok(AwaitingProviderLookup { ctx: self.ctx, grant: self.grant, discord_user: u }),
        }
    }
}

/// Step 4: the Discord account must be looked up among the linked accounts.
pub struct AwaitingProviderLookup {
    ctx: Validated,
    grant: TokenGrant,
    discord_user: DiscordUser,
}

/// Where resolving the internal user goes next.
pub enum UserResolution {
    /// The account is linked: read the internal user it belongs to.
    Lookup(AwaitingUserById),
    /// No internal user matches: insert a new one.
    Insert(AwaitingUserInsert),
    /// The internal user is known.
    Resolved(AwaitingProviderUpsert),
}

impl AwaitingProviderLookup {
    pub closed spec fn ctx(self) -> Validated {
        self.ctx
    }

    pub closed spec fn grant(self) -> TokenGrant {
        self.grant
    }

    pub closed spec fn discord_user(self) -> DiscordUser {
        self.discord_user
    }

    /// The provider to look the account up under: Discord.
    pub fn provider(&self) -> (p: OAuthProvider)
        ensures
            p == OAuthProvider::Discord,
    {
        OAuthProvider::Discord
    }

    /// The Discord account id to look up.
    pub fn provider_user_id(&self) -> (id: &str)
        ensures
            id@ == self.discord_user().id@,
    {
        self.discord_user.id.as_str()
    }

    /// Takes the lookup's result: a linked account leads to reading its
    /// user, no account to inserting a new user, and a failed lookup fails
    /// the callback with `user_lookup_failed`, so that no second user is
    /// made for an account that may be linked.
    pub fn on_provider_lookup(self, found: Result<Option<UserProvider>, ()>) -> (res: Result<UserResolution, CallbackError>)
        ensures
            match found {
                Err(_) => res == Err::<UserResolution, CallbackError>(CallbackError::UserLookupFailed),
                Ok(Some(p)) => res matches Ok(UserResolution::Lookup(s)) && s.ctx() == self.ctx()
                    && s.grant() == self.grant() && s.discord_user() == self.discord_user()
                    && s.user_id() == p.user_id,
                Ok(None) => res matches Ok(UserResolution::Insert(s)) && s.ctx() == self.ctx()
                    && s.grant() == self.grant() && s.discord_user() == self.discord_user(),
            },
    {
        match found {
            Err(_) => Err(CallbackError::UserLookupFailed),
            Ok(Some(p)) => Ok(UserResolution::Lookup(
                AwaitingUserById { ctx: self.ctx, grant: self.grant, discord_user: self.discord_user, user_id: p.user_id },
            )),
            Ok(None) => Ok(UserResolution::Insert(
                AwaitingUserInsert { ctx: self.ctx, grant: self.grant, discord_user: self.discord_user },
            )),
        }
    }
}

/// Step 5a: the internal user of a linked account must be read.
pub struct AwaitingUserById {
    ctx: Validated,
    grant: TokenGrant,
    discord_user: DiscordUser,
    user_id: i32,
}

impl AwaitingUserById {
    pub closed spec fn ctx(self) -> Validated {
        self.ctx
    }

    pub closed spec fn grant(self) -> TokenGrant {
        self.grant
    }

    pub closed spec fn discord_user(self) -> DiscordUser {
        self.discord_user
    }

    pub closed spec fn user_id(self) -> i32 {
        self.user_id
    }

    /// The internal user id to read.
    pub fn user_id_to_read(&self) -> (id: i32)
        ensures
            id == self.user_id(),
    {
        self.user_id
    }

    /// Takes the read's result: the user found is the one logging in; if no
    /// user has that id, a new user is inserted; a failed read fails the
    /// callback with `user_lookup_failed`.
    pub fn on_user(self, found: Result<Option<User>, ()>) -> (res: Result<UserResolution, CallbackError>)
        ensures
            match found {
                Err(_) => res == Err::<UserResolution, CallbackError>(CallbackError::UserLookupFailed),
                Ok(Some(u)) => res matches Ok(UserResolution::Resolved(s)) && s.ctx() == self.ctx()
                    && s.grant() == self.grant() && s.discord_user() == self.discord_user() && s.user() == u,
                Ok(None) => res matches Ok(UserResolution::Insert(s)) && s.ctx() == self.ctx()
                    && s.grant() == self.grant() && s.discord_user() == self.discord_user(),
            },
    {
        match found {
            Err(_) => Err(CallbackError::UserLookupFailed),
            Ok(Some(u)) => Ok(UserResolution::Resolved(
                AwaitingProviderUpsert { ctx: self.ctx, grant: self.grant, discord_user: self.discord_user, user: u },
            )),
            Ok(None) => Ok(UserResolution::Insert(
                AwaitingUserInsert { ctx: self.ctx, grant: self.grant, discord_user: self.discord_user },
            )),
        }
    }
}

/// Step 5b: a new internal user must be inserted.
pub struct AwaitingUserInsert {
    ctx: Validated,
    grant: TokenGrant,
    discord_user: DiscordUser,
}

/// Copies an optional string.
fn copy_opt(o: &Option<String>) -> (c: Option<String>)
    ensures
        opt_view(c) == opt_view(*o),
{
    match o {
        Some(s) => Some(s.clone()),
        None => None,
    }
}

impl AwaitingUserInsert {
    pub closed spec fn ctx(self) -> Validated {
        self.ctx
    }

    pub closed spec fn grant(self) -> TokenGrant {
        self.grant
    }

    pub closed spec fn discord_user(self) -> DiscordUser {
        self.discord_user
    }

    /// The user to insert: the Discord name and avatar, with the role `user`.
    pub fn new_user(&self) -> (n: NewUser)
        ensures
            n.username@ == self.discord_user().username@,
            opt_view(n.avatar) == opt_view(self.discord_user().avatar),
            n.role == UserRole::User,
    {
        NewUser {
            username: self.discord_user.username.clone(),
            avatar: copy_opt(&self.discord_user.avatar),
            role: UserRole::User,
        }
    }

    /// Takes the inserted user, or fails with `user_insert_failed`.
    pub fn on_user_inserted(self, inserted: Result<User, ()>) -> (res: Result<AwaitingProviderUpsert, CallbackError>)
        ensures
            match inserted {
                Err(_) => res == Err::<AwaitingProviderUpsert, CallbackError>(CallbackError::UserInsertFailed),
                Ok(u) => res matches Ok(s) && s.ctx() == self.ctx() && s.grant() == self.grant()
                    && s.discord_user() == self.discord_user() && s.user() == u,
            },
    {
        match inserted {
            Err(_) => Err(CallbackError::UserInsertFailed),
            Ok(u) => Ok(AwaitingProviderUpsert { ctx: self.ctx, grant: self.grant, discord_user: self.discord_user, user: u }),
        }
    }
}

/// Step 6: the Discord account must be linked to the internal user.
pub struct AwaitingProviderUpsert {
    ctx: Validated,
    grant: TokenGrant,
    discord_user: DiscordUser,
    user: User,
}

impl AwaitingProviderUpsert {
    pub closed spec fn ctx(self) -> Validated {
        self.ctx
    }

    pub closed spec fn grant(self) -> TokenGrant {
        self.grant
    }

    pub closed spec fn discord_user(self) -> DiscordUser {
        self.discord_user
    }

    pub closed spec fn user(self) -> User {
        self.user
    }

    /// The account to link: the Discord id, discriminator and avatar, for the
    /// internal user.
    pub fn provider_upsert(&self) -> (p: ProviderUpsert)
        ensures
            p.user_id == self.user().id,
            p.provider == OAuthProvider::Discord,
            p.provider_user_id@ == self.discord_user().id@,
            opt_view(p.discriminator) == opt_view(self.discord_user().discriminator),
            opt_view(p.avatar) == opt_view(self.discord_user().avatar),
    {
        ProviderUpsert {
            user_id: self.user.id,
            provider: OAuthProvider::Discord,
            provider_user_id: self.discord_user.id.clone(),
            discriminator: copy_opt(&self.discord_user.discriminator),
            avatar: copy_opt(&self.discord_user.avatar),
        }
    }

    /// Takes the linked account, or fails with `provider_upsert_failed`, and
    /// draws the session id of the new user session. The OAuth tokens go no
    /// further. A failed link, and only that, fails with
    /// `provider_upsert_failed`. Whatever id is drawn, a linked account goes
    /// on to a session stored under an id other than the one the browser came
    /// with; the one other outcome is `session_store_failed`, for a drawn id
    /// equal to the browser's.
    pub fn on_provider_upserted(self, linked: Result<UserProvider, ()>) -> (res: Result<AwaitingSessionStore, CallbackError>)
        ensures
            linked is Err <==> res == Err::<AwaitingSessionStore, CallbackError>(CallbackError::ProviderUpsertFailed),
            linked matches Ok(p) ==> ((res matches Ok(s) && s.provider() == p && s.ctx() == self.ctx()
                && s.user() == self.user() && s.new_session_id() != self.ctx().session_id())
                || res == Err::<AwaitingSessionStore, CallbackError>(CallbackError::SessionStoreFailed)),
    {
        let fresh = new_session_id();
        self.on_provider_upserted_as(linked, fresh)
    }

    /// What [`Self::on_provider_upserted`] does once `fresh` was drawn: a
    /// failed link fails with `provider_upsert_failed`; a drawn id equal to the
    /// browser's (which a random draw all but never gives) fails with
    /// `session_store_failed`; otherwise the session is to be stored under
    /// `fresh`.
    pub fn on_provider_upserted_as(self, linked: Result<UserProvider, ()>, fresh: String) -> (res: Result<AwaitingSessionStore, CallbackError>)
        ensures
            match linked {
                Err(_) => res == Err::<AwaitingSessionStore, CallbackError>(CallbackError::ProviderUpsertFailed),
                Ok(p) => if fresh@ == self.ctx().session_id() {
                    res == Err::<AwaitingSessionStore, CallbackError>(CallbackError::SessionStoreFailed)
                } else {
                    res matches Ok(s) && s.ctx() == self.ctx() && s.user() == self.user() && s.provider() == p
                        && s.new_session_id() == fresh@
                },
            },
    {
        let provider = match linked {
            Err(_) => return Err(CallbackError::ProviderUpsertFailed),
            Ok(p) => p,
        };
        if fresh == self.ctx.session_id {
            return Err(CallbackError::SessionStoreFailed);
        }
        Ok(AwaitingSessionStore { ctx: self.ctx, user: self.user, provider, session_id: fresh })
    }
}

/// Step 7: the user session must be stored in Redis, under a new session id.
pub struct AwaitingSessionStore {
    ctx: Validated,
    user: User,
    provider: UserProvider,
    session_id: String,
}

/// The session the callback stores for `user` signed in through `provider`
/// at `now`, under `session_id`: version 1, expiring a day later.
pub open spec fn callback_session(session_id: Seq<char>, user: User, provider: UserProvider, now: Timestamp, s: UserSession) -> bool {
    &&& s.session_id@ == session_id
    &&& s.user_id == user.id
    &&& s.username@ == user.username@
    &&& s.provider_user_id matches Some(pid) && pid@ == provider.provider_user_id@
    &&& opt_view(s.avatar) == opt_view(provider.avatar)
    &&& s.role == user.role
    &&& s.provider == provider.provider
    &&& s.session_version == 1
    &&& s.created_at == now
    &&& s.expires_at == (Timestamp { secs: (now.secs + CALLBACK_SESSION_TTL_SECONDS) as i64, nanos: now.nanos })
    &&& s.last_activity == now
    &&& s.ip_address is None
    &&& s.user_agent is None
}

/// The session the callback stores belongs to the internal user it resolved
/// (its id, name and role) and shows the linked account (its provider, its
/// provider id and its avatar), under the given session id, created at `now`
/// and expiring a day later (for any `now` a day before the end of time).
pub proof fn lemma_callback_session_is_the_users(
    session_id: Seq<char>,
    user: User,
    provider: UserProvider,
    now: Timestamp,
    s: UserSession,
)
    requires
        callback_session(session_id, user, provider, now, s),
        now.secs + CALLBACK_SESSION_TTL_SECONDS <= i64::MAX,
    ensures
        s.session_id@ == session_id,
        s.user_id == user.id,
        s.username@ == user.username@,
        s.role == user.role,
        s.provider == provider.provider,
        s.provider_user_id == Some(s.provider_user_id->0) && s.provider_user_id->0@ == provider.provider_user_id@,
        opt_view(s.avatar) == opt_view(provider.avatar),
        s.created_at == now,
        s.expires_at.secs == now.secs + 86400 && s.expires_at.nanos == now.nanos,
{
}

impl AwaitingSessionStore {
    #[verifier::type_invariant]
    spec fn id_is_new(self) -> bool {
        self.session_id@ != self.ctx.session_id@
    }

    pub closed spec fn ctx(self) -> Validated {
        self.ctx
    }

    pub closed spec fn user(self) -> User {
        self.user
    }

    pub closed spec fn provider(self) -> UserProvider {
        self.provider
    }

    /// The id the new session is stored under.
    pub closed spec fn new_session_id(self) -> Seq<char> {
        self.session_id@
    }

    /// The Redis key of the session: the new session id under
    /// `user_session:`.
    pub fn session_key(&self) -> (k: String)
        ensures
            k@ == user_session_key(self.new_session_id()),
    {
        user_key(self.session_id.as_str())
    }

    /// How long the session lives in Redis: a day.
    pub fn session_ttl_seconds(&self) -> (t: u64)
        ensures
            t == CALLBACK_SESSION_TTL_SECONDS,
    {
        CALLBACK_SESSION_TTL_SECONDS
    }

    /// The session to store, created at `now`, under the new session id. It
    /// holds the internal user, the linked account's id and avatar, and
    /// nothing of the OAuth tokens. It is only ever built after the login
    /// state was found for the cookie's session id and the returned `state`
    /// matched its CSRF token, and its id is not the cookie's.
    pub fn session_record(&self, now: Timestamp) -> (s: UserSession)
        requires
            now.secs + CALLBACK_SESSION_TTL_SECONDS <= i64::MAX,
        ensures
            callback_session(self.new_session_id(), self.user(), self.provider(), now, s),
            s.session_id@ == self.new_session_id(),
            s.session_id@ != self.ctx().session_id(),
            s.user_id == self.user().id,
            s.username@ == self.user().username@,
            s.role == self.user().role,
            s.provider == self.provider().provider,
            s.provider_user_id matches Some(pid) && pid@ == self.provider().provider_user_id@,
            opt_view(s.avatar) == opt_view(self.provider().avatar),
            s.created_at == now && s.last_activity == now,
            s.expires_at.secs == now.secs + CALLBACK_SESSION_TTL_SECONDS && s.expires_at.nanos == now.nanos,
            csrf_accepts(self.ctx().oauth_session().csrf_token@, self.ctx().returned_state()),
    {
        proof {
            use_type_invariant(&self.ctx);
            use_type_invariant(self);
        }
        UserSession {
            session_id: self.session_id.clone(),
            user_id: self.user.id,
            username: self.user.username.clone(),
            provider_user_id: Some(self.provider.provider_user_id.clone()),
            avatar: copy_opt(&self.provider.avatar),
            role: self.user.role,
            provider: self.provider.provider,
            session_version: 1,
            created_at: now,
            expires_at: Timestamp { secs: now.secs + CALLBACK_SESSION_TTL_SECONDS as i64, nanos: now.nanos },
            last_activity: now,
            ip_address: None,
            user_agent: None,
        }
    }

    /// Takes whether the session was stored; a failure fails the callback
    /// with `session_store_failed`.
    pub fn on_session_stored(self, stored: bool) -> (res: Result<AwaitingCleanup, CallbackError>)
        ensures
            stored ==> (res matches Ok(s) && s.old_session_id() == self.ctx().session_id()
                && s.new_session_id() == self.new_session_id()),
            !stored ==> res == Err::<AwaitingCleanup, CallbackError>(CallbackError::SessionStoreFailed),
    {
        proof {
            use_type_invariant(&self);
        }
        if stored {
            Ok(AwaitingCleanup { old_session_id: self.ctx.session_id, new_session_id: self.session_id })
        } else {
            Err(CallbackError::SessionStoreFailed)
        }
    }
}

/// Step 8: the login state is deleted (whether that works does not matter)
/// and the browser gets the cookie of its new session.
pub struct AwaitingCleanup {
    old_session_id: String,
    new_session_id: String,
}

impl AwaitingCleanup {
    #[verifier::type_invariant]
    spec fn id_is_new(self) -> bool {
        self.new_session_id@ != self.old_session_id@
    }

    /// The session id the browser came with, under which the login state is.
    pub closed spec fn old_session_id(self) -> Seq<char> {
        self.old_session_id@
    }

    /// The id of the stored session.
    pub closed spec fn new_session_id(self) -> Seq<char> {
        self.new_session_id@
    }

    /// The Redis key of the login state to delete.
    pub fn oauth_session_key(&self) -> (k: String)
        ensures
            k@ == oauth_session_key(self.old_session_id()),
    {
        oauth_key(self.old_session_id.as_str())
    }

    /// The answer to a successful callback: the session cookie, carrying the
    /// new session id (never the one the browser came with) and living as
    /// long as the stored session, and a redirect to the frontend.
    pub fn finish(self, frontend_url: &str) -> (r: RedirectResponse)
        ensures
            r.cookie matches CookieUpdate::Assign(c) && is_session_cookie(
                c,
                self.new_session_id(),
                CALLBACK_SESSION_TTL_SECONDS,
            ) && c.value@ != self.old_session_id(),
            r.location@ == frontend_url@,
    {
        proof {
            use_type_invariant(&self);
        }
        RedirectResponse {
            cookie: CookieUpdate::Assign(session_cookie(self.new_session_id, CALLBACK_SESSION_TTL_SECONDS)),
            location: String::from_str(frontend_url),
        }
    }
}

} // verus!
