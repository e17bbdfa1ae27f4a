//! The Discord OAuth2 client's settings, the provider's authorization URL, and
//! the random values a login draws.

use vstd::prelude::*;
use crate::config::Config;
use oauth2::basic::BasicClient;
use oauth2::{AuthUrl, ClientId, CsrfToken, PkceCodeChallenge, PkceCodeVerifier, RedirectUrl, Scope, TokenUrl};
use vstd::utf8::encode_utf8;

verus! {

/// Whether `oauth2::AuthUrl::new` accepts the text (it parses it as a URL).
pub uninterp spec fn auth_url_parses(url: Seq<char>) -> bool;

/// Whether `oauth2::TokenUrl::new` accepts the text (it parses it as a URL).
pub uninterp spec fn token_url_parses(url: Seq<char>) -> bool;

/// Whether `oauth2::RedirectUrl::new` accepts the text (it parses it as a URL).
pub uninterp spec fn redirect_url_parses(url: Seq<char>) -> bool;

/// The S256 PKCE challenge of a verifier, as
/// `oauth2::PkceCodeChallenge::from_code_verifier_sha256` computes it and
/// `as_str` gives it: the SHA-256 digest of the verifier's bytes in unpadded
/// URL-safe base64.
pub uninterp spec fn pkce_s256_challenge(verifier: Seq<char>) -> Seq<char>;

/// The URL that `oauth2`'s authorization request gives (`url()`), for a client
/// with this id, authorization endpoint and redirect URL, asking for these
/// scopes, with this `state` and this S256 PKCE challenge.
pub uninterp spec fn authorize_url_of(
    client_id: Seq<char>,
    auth_url: Seq<char>,
    redirect_url: Seq<char>,
    scopes: Seq<Seq<char>>,
    state: Seq<char>,
    challenge: Seq<char>,
) -> Seq<char>;

/// `oauth2::AuthUrl::new`: whether the text parses as a URL, which depends on
/// the text alone.
#[verifier::external_body]
fn auth_url_valid(url: &str) -> (ok: bool)
    ensures
        ok == auth_url_parses(url@),
{
    AuthUrl::new(url.to_string()).is_ok()
}

/// `oauth2::TokenUrl::new`: whether the text parses as a URL, which depends on
/// the text alone.
#[verifier::external_body]
fn token_url_valid(url: &str) -> (ok: bool)
    ensures
        ok == token_url_parses(url@),
{
    TokenUrl::new(url.to_string()).is_ok()
}

/// `oauth2::RedirectUrl::new`: whether the text parses as a URL, which depends
/// on the text alone.
#[verifier::external_body]
fn redirect_url_valid(url: &str) -> (ok: bool)
    ensures
        ok == redirect_url_parses(url@),
{
    RedirectUrl::new(url.to_string()).is_ok()
}

/// The settings of the Discord OAuth2 client: its credentials and its three
/// endpoints, each of which parses as a URL.
pub struct OAuthClient {
    client_id: String,
    client_secret: String,
    auth_url: String,
    token_url: String,
    redirect_url: String,
}

impl OAuthClient {
    #[verifier::type_invariant]
    spec fn endpoints_parse(self) -> bool {
        &&& auth_url_parses(self.auth_url@)
        &&& token_url_parses(self.token_url@)
        &&& redirect_url_parses(self.redirect_url@)
    }

    pub closed spec fn client_id(self) -> Seq<char> {
        self.client_id@
    }

    pub closed spec fn client_secret(self) -> Seq<char> {
        self.client_secret@
    }

    pub closed spec fn auth_url(self) -> Seq<char> {
        self.auth_url@
    }

    pub closed spec fn token_url(self) -> Seq<char> {
        self.token_url@
    }

    pub closed spec fn redirect_url(self) -> Seq<char> {
        self.redirect_url@
    }

    /// The client id.
    pub fn client_id_text(&self) -> (t: &str)
        ensures
            t@ == self.client_id(),
    {
        self.client_id.as_str()
    }

    /// The client secret.
    pub fn client_secret_text(&self) -> (t: &str)
        ensures
            t@ == self.client_secret(),
    {
        self.client_secret.as_str()
    }

    /// The authorization endpoint.
    pub fn auth_url_text(&self) -> (t: &str)
        ensures
            t@ == self.auth_url(),
            auth_url_parses(t@),
    {
        proof {
            use_type_invariant(self);
        }
        self.auth_url.as_str()
    }

    /// The token endpoint.
    pub fn token_url_text(&self) -> (t: &str)
        ensures
            t@ == self.token_url(),
            token_url_parses(t@),
    {
        proof {
            use_type_invariant(self);
        }
        self.token_url.as_str()
    }

    /// The redirect URL.
    pub fn redirect_url_text(&self) -> (t: &str)
        ensures
            t@ == self.redirect_url(),
            redirect_url_parses(t@),
    {
        proof {
            use_type_invariant(self);
        }
        self.redirect_url.as_str()
    }
}

/// Which endpoint of the configuration is not a URL.
#[derive(Clone, Copy, Debug, PartialEq, Eq, Structural)]
pub enum OAuthClientError {
    InvalidAuthUrl,
    InvalidTokenUrl,
    InvalidRedirectUrl,
}

/// Sets the client up from the configuration: the Discord client id and
/// secret, and the authorization, token and redirect URLs, which must parse
/// (checked in that order).
pub fn create_oauth_client(config: &Config) -> (res: Result<OAuthClient, OAuthClientError>)
    ensures
        !auth_url_parses(config.discord_auth_url@)
            ==> res == Err::<OAuthClient, OAuthClientError>(OAuthClientError::InvalidAuthUrl),
        auth_url_parses(config.discord_auth_url@) && !token_url_parses(config.discord_token_url@)
            ==> res == Err::<OAuthClient, OAuthClientError>(OAuthClientError::InvalidTokenUrl),
        auth_url_parses(config.discord_auth_url@) && token_url_parses(config.discord_token_url@)
            && !redirect_url_parses(config.discord_redirect_uri@)
            ==> res == Err::<OAuthClient, OAuthClientError>(OAuthClientError::InvalidRedirectUrl),
        auth_url_parses(config.discord_auth_url@) && token_url_parses(config.discord_token_url@)
            && redirect_url_parses(config.discord_redirect_uri@)
            ==> (res matches Ok(c) && c.client_id() == config.discord_client_id@
                && c.client_secret() == config.discord_client_secret@
                && c.auth_url() == config.discord_auth_url@
                && c.token_url() == config.discord_token_url@
                && c.redirect_url() == config.discord_redirect_uri@),
{
    if !auth_url_valid(config.discord_auth_url.as_str()) {
        return Err(OAuthClientError::InvalidAuthUrl);
    }
    if !token_url_valid(config.discord_token_url.as_str()) {
        return Err(OAuthClientError::InvalidTokenUrl);
    }
    if !redirect_url_valid(config.discord_redirect_uri.as_str()) {
        return Err(OAuthClientError::InvalidRedirectUrl);
    }
    Ok(OAuthClient {
        client_id: config.discord_client_id.clone(),
        client_secret: config.discord_client_secret.clone(),
        auth_url: config.discord_auth_url.clone(),
        token_url: config.discord_token_url.clone(),
        redirect_url: config.discord_redirect_uri.clone(),
    })
}

/// The authorization URL `oauth2` builds for the client (`BasicClient` with
/// the client id, authorization endpoint and redirect URL), asking for
/// `scopes`, with `state` as the CSRF state and the S256 challenge of
/// `verifier` (`from_code_verifier_sha256`, which panics on a verifier of
/// fewer than 43 or more than 128 bytes). `None` when an endpoint does not
/// parse.
#[verifier::external_body]
fn authorization_request_url(client: &OAuthClient, scopes: &Vec<String>, state: &str, verifier: &str) -> (built: Option<String>)
    requires
        43 <= encode_utf8(verifier@).len() <= 128,
    ensures
        built is Some <==> (auth_url_parses(client.auth_url()) && redirect_url_parses(client.redirect_url())),
        built matches Some(u) ==> u@ == authorize_url_of(client.client_id(), client.auth_url(), client.redirect_url(), scopes.deep_view(), state@, pkce_s256_challenge(verifier@)),
{
    let auth_url = AuthUrl::new(client.auth_url.clone()).ok()?;
    let redirect_url = RedirectUrl::new(client.redirect_url.clone()).ok()?;
    let challenge = PkceCodeChallenge::from_code_verifier_sha256(&PkceCodeVerifier::new(verifier.to_string()));
    let token = CsrfToken::new(state.to_string());
    let oauth = BasicClient::new(ClientId::new(client.client_id.clone())).set_auth_uri(auth_url).set_redirect_uri(redirect_url);
    let mut request = oauth.authorize_url(move || token);
    for scope in scopes.iter() {
        request = request.add_scope(Scope::new(scope.clone()));
    }
    Some(request.set_pkce_challenge(challenge).url().0.to_string())
}

/// The provider's authorization URL for a login: the client asks for
/// `scopes`, with `state` and the S256 challenge of `verifier`.
pub fn authorize_url(client: &OAuthClient, scopes: &Vec<String>, state: &str, verifier: &str) -> (url: String)
    requires
        43 <= encode_utf8(verifier@).len() <= 128,
    ensures
        url@ == authorize_url_of(
            client.client_id(),
            client.auth_url(),
            client.redirect_url(),
            scopes.deep_view(),
            state@,
            pkce_s256_challenge(verifier@),
        ),
{
    proof {
        use_type_invariant(client);
    }
    match authorization_request_url(client, scopes, state, verifier) {
        Some(u) => u,
        None => {
            proof {
                assert(false);
            }
            String::new()
        },
    }
}

/// A fresh session id: `uuid::Uuid::new_v4()` in its hyphenated lower-case
/// text, which is 36 characters long. The id is random.
#[verifier::external_body]
pub(crate) fn new_session_id() -> (id: String)
    ensures
        id@.len() == 36,
{
    uuid::Uuid::new_v4().to_string()
}

/// A fresh PKCE pair from `oauth2::PkceCodeChallenge::new_random_sha256`: the
/// challenge's text (`as_str`) and the verifier's text. The verifier is 32
/// random bytes in unpadded URL-safe base64, 43 ASCII characters; the
/// challenge is computed from it by `from_code_verifier_sha256`.
#[verifier::external_body]
pub(crate) fn new_pkce_pair() -> (pair: (String, String))
    ensures
        pair.0@ == pkce_s256_challenge(pair.1@),
        pair.1@.len() == 43,
        encode_utf8(pair.1@).len() == 43,
{
    let (challenge, verifier) = PkceCodeChallenge::new_random_sha256();
    (challenge.as_str().to_string(), verifier.secret().to_string())
}

/// A fresh CSRF token from `oauth2::CsrfToken::new_random`: 16 random bytes
/// in unpadded URL-safe base64, 22 characters. It is random.
#[verifier::external_body]
pub(crate) fn new_csrf_token() -> (token: String)
    ensures
        token@.len() == 22,
{
    CsrfToken::new_random().secret().to_string()
}

} // verus!
