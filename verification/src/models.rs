//! The records that the auth service keeps in Postgres and Redis and the
//! shapes it answers with.

use vstd::prelude::*;
use crate::text::{parse_unsigned, parse_u32};

verus! {

/// A moment as seconds since the Unix epoch and the nanoseconds past them.
/// Where a record's moment is a naive date-time, it is read as UTC.
#[derive(Clone, Copy, Debug, PartialEq, Eq, Structural)]
pub struct Timestamp {
    pub secs: i64,
    pub nanos: u32,
}

/// The role of an internal user.
#[derive(Clone, Copy, Debug, PartialEq, Eq, Structural)]
pub enum UserRole {
    User,
    Admin,
}

/// The lower-case name under which a role is stored and shown.
pub open spec fn role_name(role: UserRole) -> Seq<char> {
    match role {
        UserRole::User => "user"@,
        UserRole::Admin => "admin"@,
    }
}

impl UserRole {
    /// The role's name: `user` or `admin`.
    pub fn to_string(&self) -> (s: String)
        ensures
            s@ == role_name(*self),
    {
        match self {
            UserRole::User => String::from_str("user"),
            UserRole::Admin => String::from_str("admin"),
        }
    }
}

/// The OAuth provider through which an account signs in.
#[derive(Clone, Copy, Debug, PartialEq, Eq, Structural)]
pub enum OAuthProvider {
    Discord,
    Google,
}

/// The lower-case name under which a provider is stored and shown.
pub open spec fn provider_name(provider: OAuthProvider) -> Seq<char> {
    match provider {
        OAuthProvider::Discord => "discord"@,
        OAuthProvider::Google => "google"@,
    }
}

impl OAuthProvider {
    /// The provider's name: `discord` or `google`.
    pub fn to_string(&self) -> (s: String)
        ensures
            s@ == provider_name(*self),
    {
        match self {
            OAuthProvider::Discord => String::from_str("discord"),
            OAuthProvider::Google => String::from_str("google"),
        }
    }
}

/// Two roles, or two providers, never share a name.
pub proof fn lemma_names_distinct()
    ensures
        role_name(UserRole::User) != role_name(UserRole::Admin),
        provider_name(OAuthProvider::Discord) != provider_name(OAuthProvider::Google),
{
    reveal_strlit("user");
    reveal_strlit("admin");
    reveal_strlit("discord");
    reveal_strlit("google");
    assert(role_name(UserRole::User).len() != role_name(UserRole::Admin).len());
    assert(provider_name(OAuthProvider::Discord).len() != provider_name(OAuthProvider::Google).len());
}

/// What a started login keeps in Redis until the provider calls back.
pub struct OAuthSession {
    pub csrf_token: String,
    pub pkce_verifier: String,
    pub nonce: String,
}

/// The user as the API and the frontend see them.
pub struct SessionUser {
    /// The internal user id; `-1` in the answer to an unauthenticated request.
    pub id: i32,
    pub username: String,
    pub avatar: Option<String>,
    pub role: UserRole,
}

/// A user session as Redis keeps it.
pub struct UserSession {
    pub session_id: String,
    pub user_id: i32,
    pub username: String,
    pub provider_user_id: Option<String>,
    pub avatar: Option<String>,
    pub role: UserRole,
    pub provider: OAuthProvider,
    pub session_version: u32,
    pub created_at: Timestamp,
    pub expires_at: Timestamp,
    pub last_activity: Timestamp,
    pub ip_address: Option<String>,
    pub user_agent: Option<String>,
}

/// The user as Discord describes them.
pub struct DiscordUser {
    pub id: String,
    pub username: String,
    pub discriminator: Option<String>,
    pub avatar: Option<String>,
}

/// An internal user, as the `users` table holds it.
pub struct User {
    pub id: i32,
    pub username: String,
    pub avatar: Option<String>,
    pub role: UserRole,
    pub created_at: Timestamp,
    pub updated_at: Timestamp,
    pub last_login: Option<Timestamp>,
    pub login_count: i32,
}

/// A provider account linked to an internal user (`user_providers`).
pub struct UserProvider {
    pub id: i32,
    pub user_id: i32,
    pub provider: OAuthProvider,
    pub provider_user_id: String,
    pub discriminator: Option<String>,
    pub avatar: Option<String>,
    pub created_at: Timestamp,
    pub updated_at: Timestamp,
}

/// A sealed refresh token of a provider account (`oauth_tokens`).
pub struct OAuthToken {
    pub id: i32,
    pub user_provider_id: i32,
    pub encrypted_refresh_token: Vec<u8>,
    pub refresh_token_nonce: Vec<u8>,
    pub previous_refresh_token: Option<Vec<u8>>,
    pub previous_refresh_token_nonce: Option<Vec<u8>>,
    pub created_at: Timestamp,
    pub updated_at: Timestamp,
    pub last_token_rotation: Option<Timestamp>,
}

/// The index (0 to 4) of the Discord default avatar for the account id `id`:
/// the id read as a `u32`, or 0 where it does not read as one, modulo 5.
pub open spec fn default_avatar_index(id: Seq<char>) -> nat {
    match parse_unsigned(id, u32::MAX as nat) {
        Some(v) => v % 5,
        None => 0,
    }
}

/// The one-character decimal text of a number below ten.
pub open spec fn digit_text(n: nat) -> Seq<char> {
    seq![('0' as nat + n) as char]
}

/// The text of a number below ten is its one decimal digit.
pub proof fn lemma_digit_text_is_the_decimal_digit(n: nat)
    requires
        n < 10,
    ensures
        digit_text(n).len() == 1,
        digit_text(n)[0] as nat == '0' as nat + n,
{
}

/// The Discord default avatar of an account id is one of five, picked by the
/// id read as a number, modulo five (0 when it does not read as a `u32`).
pub proof fn lemma_default_avatar_index(id: Seq<char>)
    ensures
        default_avatar_index(id) < 5,
        parse_unsigned(id, u32::MAX as nat) matches Some(v) ==> default_avatar_index(id) == v % 5,
        parse_unsigned(id, u32::MAX as nat) is None ==> default_avatar_index(id) == 0,
{
}

/// The avatar URL of a session, as the `/me` endpoint shows it.
///
/// With a non-empty avatar hash, a Discord account's avatar lives on Discord's
/// CDN under the account's provider id, and a Google account's avatar hash is
/// already its URL. Without one, a Discord account gets one of Discord's five
/// default avatars and a Google account a local placeholder. A Discord session
/// without a provider id has no avatar.
pub open spec fn avatar_url_of(s: UserSession) -> Option<Seq<char>> {
    let has_hash = s.avatar is Some && s.avatar->0@.len() > 0;
    match s.provider {
        OAuthProvider::Discord => match s.provider_user_id {
            Some(id) => if has_hash {
                Some("https://cdn.discordapp.com/avatars/"@ + id@ + "/"@ + s.avatar->0@ + ".png"@)
            } else {
                Some("https://cdn.discordapp.com/embed/avatars/"@ + digit_text(default_avatar_index(id@)) + ".png"@)
            },
            None => None,
        },
        OAuthProvider::Google => if has_hash {
            Some(s.avatar->0@)
        } else {
            Some("/images/default-google-avatar.png"@)
        },
    }
}

fn digit_string(n: u32) -> (s: String)
    requires
        n < 5,
    ensures
        s@ == digit_text(n as nat),
        s@.len() == 1,
        s@[0] as nat == '0' as nat + n,
{
    proof {
        reveal_strlit("0");
        reveal_strlit("1");
        reveal_strlit("2");
        reveal_strlit("3");
        reveal_strlit("4");
    }
    if n == 0 {
        String::from_str("0")
    } else if n == 1 {
        String::from_str("1")
    } else if n == 2 {
        String::from_str("2")
    } else if n == 3 {
        String::from_str("3")
    } else {
        String::from_str("4")
    }
}

/// A Discord session with no avatar hash shows Discord's default avatar whose
/// number is the account id, read as a number, modulo five: the single digit
/// of that number in `https://cdn.discordapp.com/embed/avatars/{digit}.png`.
/// With a hash it shows `https://cdn.discordapp.com/avatars/{id}/{hash}.png`.
pub proof fn lemma_discord_avatar_url(s: UserSession, id: String)
    requires
        s.provider == OAuthProvider::Discord,
        s.provider_user_id == Some(id),
    ensures
        !(s.avatar is Some && s.avatar->0@.len() > 0) ==> (parse_unsigned(id@, u32::MAX as nat) matches Some(v)
            ==> avatar_url_of(s) == Some(
            "https://cdn.discordapp.com/embed/avatars/"@ + seq![('0' as nat + v % 5) as char] + ".png"@,
        )),
        !(s.avatar is Some && s.avatar->0@.len() > 0) ==> (parse_unsigned(id@, u32::MAX as nat) is None
            ==> avatar_url_of(s) == Some("https://cdn.discordapp.com/embed/avatars/"@ + seq!['0'] + ".png"@)),
        (s.avatar is Some && s.avatar->0@.len() > 0) ==> avatar_url_of(s) == Some(
            "https://cdn.discordapp.com/avatars/"@ + id@ + "/"@ + s.avatar->0@ + ".png"@,
        ),
{
}

impl UserSession {
    /// The avatar URL to show for this session (see [`avatar_url_of`]).
    pub fn avatar_url(&self) -> (url: Option<String>)
        ensures
            match avatar_url_of(*self) {
                Some(u) => url matches Some(v) && v@ == u,
                None => url is None,
            },
    {
        let has_hash = match &self.avatar {
            Some(hash) => !hash.as_str().is_empty(),
            None => false,
        };
        match self.provider {
            OAuthProvider::Discord => match &self.provider_user_id {
                Some(id) => {
                    if has_hash {
                        let hash = self.avatar.as_ref().unwrap();
                        let mut url = String::from_str("https://cdn.discordapp.com/avatars/");
                        url.append(id.as_str());
                        url.append("/");
                        url.append(hash.as_str());
                        url.append(".png");
                        Some(url)
                    } else {
                        let n = match parse_u32(id.as_str()) {
                            Some(v) => v,
                            None => 0,
                        };
                        let mut url = String::from_str("https://cdn.discordapp.com/embed/avatars/");
                        let d = digit_string(n % 5);
                        url.append(d.as_str());
                        url.append(".png");
                        Some(url)
                    }
                },
                None => None,
            },
            OAuthProvider::Google => {
                if has_hash {
                    let hash = self.avatar.as_ref().unwrap();
                    Some(hash.clone())
                } else {
                    Some(String::from_str("/images/default-google-avatar.png"))
                }
            },
        }
    }

    /// A session is valid when it names an internal user (a non-zero id).
    pub fn is_valid(&self) -> (b: bool)
        ensures
            b == (self.user_id != 0),
    {
        self.user_id != 0
    }
}

} // verus!
