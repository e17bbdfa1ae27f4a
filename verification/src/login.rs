//! Starting a Discord login: fresh secrets, kept in Redis for ten minutes, a
//! session cookie that lets the callback find them, and the provider's
//! authorization URL that carries the CSRF state and the PKCE challenge.

use vstd::prelude::*;
use crate::http::{SessionCookie, session_cookie, is_session_cookie};
use crate::keys::{oauth_key, oauth_session_key, OAUTH_SESSION_TTL_SECONDS};
use crate::models::OAuthSession;
use vstd::utf8::encode_utf8;
use crate::oauth::{new_session_id, new_pkce_pair, new_csrf_token, authorize_url, authorize_url_of, pkce_s256_challenge, OAuthClient};

verus! {

/// How long the login's session cookie lives: an hour.
pub const LOGIN_COOKIE_MAX_AGE_SECONDS: u64 = 3600;

/// A started login whose secrets must be stored in Redis.
pub struct LoginStart {
    session_id: String,
    oauth_session: OAuthSession,
    pkce_challenge: String,
}

/// The scopes a login asks Discord for: `identify` and `email`.
pub open spec fn login_scopes() -> Seq<Seq<char>> {
    seq!["identify"@, "email"@]
}

/// The URL the browser is sent to: Discord's authorization endpoint for the
/// client, asking for the login scopes, with the stored CSRF token as `state`
/// and the challenge of the stored PKCE verifier.
pub open spec fn login_authorize_url(client: OAuthClient, oauth_session: OAuthSession) -> Seq<char> {
    authorize_url_of(
        client.client_id(),
        client.auth_url(),
        client.redirect_url(),
        login_scopes(),
        oauth_session.csrf_token@,
        pkce_s256_challenge(oauth_session.pkce_verifier@),
    )
}

/// Starts a login: a fresh session id, CSRF token and PKCE pair. The login
/// state keeps the CSRF token and the PKCE verifier, and an empty nonce; the
/// PKCE challenge handed to the provider is the verifier's S256 challenge.
pub fn login_begin() -> (s: LoginStart)
    ensures
        s.session_id().len() == 36,
        s.oauth_session().csrf_token@.len() == 22,
        s.oauth_session().pkce_verifier@.len() == 43,
        s.oauth_session().nonce@ == Seq::<char>::empty(),
        s.pkce_challenge() == pkce_s256_challenge(s.oauth_session().pkce_verifier@),
{
    let (pkce_challenge, pkce_verifier) = new_pkce_pair();
    let csrf_token = new_csrf_token();
    let session_id = new_session_id();
    LoginStart {
        session_id,
        oauth_session: OAuthSession { csrf_token, pkce_verifier, nonce: String::new() },
        pkce_challenge,
    }
}

/// Why a login could not start: its state could not be stored. The answer
/// is 500 with the text `Login error: {reason}`.
pub struct LoginError {
    pub status: u16,
    pub message: String,
}

/// What the browser gets from a started login: the session cookie, and a
/// redirect to the provider's authorization URL.
pub struct LoginRedirect {
    pub cookie: SessionCookie,
    pub location: String,
}

impl LoginStart {
    #[verifier::type_invariant]
    spec fn challenge_of_verifier(self) -> bool {
        &&& encode_utf8(self.oauth_session.pkce_verifier@).len() == 43
        &&& self.pkce_challenge@ == pkce_s256_challenge(self.oauth_session.pkce_verifier@)
    }

    pub closed spec fn session_id(self) -> Seq<char> {
        self.session_id@
    }

    /// The fresh session id.
    pub fn session_id_text(&self) -> (id: &str)
        ensures
            id@ == self.session_id(),
    {
        self.session_id.as_str()
    }

    pub closed spec fn oauth_session(self) -> OAuthSession {
        self.oauth_session
    }

    /// The PKCE challenge that goes to the provider.
    pub closed spec fn pkce_challenge(self) -> Seq<char> {
        self.pkce_challenge@
    }

    /// The PKCE challenge that goes to the provider.
    pub fn pkce_challenge_text(&self) -> (c: &str)
        ensures
            c@ == self.pkce_challenge(),
    {
        self.pkce_challenge.as_str()
    }

    /// The provider's authorization URL for this login: the stored CSRF token
    /// is the `state`, and the challenge is that of the stored verifier.
    pub fn authorization_url(&self, client: &OAuthClient) -> (url: String)
        ensures
            url@ == login_authorize_url(*client, self.oauth_session()),
    {
        proof {
            use_type_invariant(self);
        }
        let scopes: Vec<String> = vec![String::from_str("identify"), String::from_str("email")];
        proof {
            reveal_strlit("identify");
            reveal_strlit("email");
            assert(scopes.deep_view() =~= login_scopes());
        }
        authorize_url(client, &scopes, self.oauth_session.csrf_token.as_str(), self.oauth_session.pkce_verifier.as_str())
    }

    /// The Redis key to store the login state under.
    pub fn oauth_session_key(&self) -> (k: String)
        ensures
            k@ == oauth_session_key(self.session_id()),
    {
        oauth_key(self.session_id.as_str())
    }

    /// How long the login state lives: ten minutes.
    pub fn ttl_seconds(&self) -> (t: u64)
        ensures
            t == OAUTH_SESSION_TTL_SECONDS,
    {
        OAUTH_SESSION_TTL_SECONDS
    }

    /// The login state to store.
    pub fn oauth_session_to_store(&self) -> (s: &OAuthSession)
        ensures
            *s == self.oauth_session(),
    {
        &self.oauth_session
    }

    /// Takes whether the state was stored (or why not). Once stored, the
    /// browser gets the session cookie for an hour and is sent to the
    /// provider's authorization URL for this login.
    pub fn on_stored(self, stored: Result<(), String>, client: &OAuthClient) -> (res: Result<LoginRedirect, LoginError>)
        ensures
            match stored {
                Ok(_) => res matches Ok(r) && is_session_cookie(r.cookie, self.session_id(), LOGIN_COOKIE_MAX_AGE_SECONDS)
                    && r.location@ == login_authorize_url(*client, self.oauth_session()),
                Err(reason) => res matches Err(e) && e.status == 500 && e.message@ == "Login error: "@ + reason@,
            },
    {
        match stored {
            Ok(_) => {
                let location = self.authorization_url(client);
                Ok(LoginRedirect { cookie: session_cookie(self.session_id, LOGIN_COOKIE_MAX_AGE_SECONDS), location })
            },
            Err(reason) => {
                let mut message = String::from_str("Login error: ");
                message.append(reason.as_str());
                Err(LoginError { status: 500, message })
            },
        }
    }
}

} // verus!
