use auth_service::callback::{
    callback_begin, verify_csrf, CallbackError, CallbackRequest, TokenGrant, UserResolution,
};
use auth_service::commissions::{commissions_response, create_commission_status, Commission};
use auth_service::crypto::{decrypt_token, encrypt_token};
use auth_service::http::CookieUpdate;
use auth_service::config::Config;
use auth_service::login::login_begin;
use auth_service::oauth::{authorize_url, create_oauth_client, OAuthClient};
use auth_service::me::{logout, me_begin, unauthorized, MeStep};
use auth_service::models::{
    DiscordUser, OAuthProvider, OAuthSession, OAuthToken, Timestamp, User, UserProvider, UserRole, UserSession,
};
use auth_service::refresh::{refresh_begin, RefreshError, RefreshGrant, RefreshStep};

const KEY: [u8; 32] = [9u8; 32];
const T0: Timestamp = Timestamp { secs: 1_700_000_000, nanos: 5 };

fn oauth_session(csrf: &str) -> OAuthSession {
    OAuthSession { csrf_token: csrf.to_string(), pkce_verifier: "verifier".to_string(), nonce: String::new() }
}

fn request(cookie: Option<&str>, code: Option<&str>, state: Option<&str>) -> CallbackRequest {
    CallbackRequest {
        session_cookie: cookie.map(|s| s.to_string()),
        code: code.map(|s| s.to_string()),
        state: state.map(|s| s.to_string()),
    }
}

fn discord_user() -> DiscordUser {
    DiscordUser {
        id: "80351110224678912".to_string(),
        username: "nelly".to_string(),
        discriminator: Some("1337".to_string()),
        avatar: Some("8342729096ea3675442027381ff50dfe".to_string()),
    }
}

fn user(id: i32) -> User {
    User {
        id,
        username: "nelly".to_string(),
        avatar: None,
        role: UserRole::Admin,
        created_at: T0,
        updated_at: T0,
        last_login: None,
        login_count: 3,
    }
}

fn provider(id: i32, user_id: i32) -> UserProvider {
    UserProvider {
        id,
        user_id,
        provider: OAuthProvider::Discord,
        provider_user_id: "80351110224678912".to_string(),
        discriminator: Some("1337".to_string()),
        avatar: Some("8342729096ea3675442027381ff50dfe".to_string()),
        created_at: T0,
        updated_at: T0,
    }
}

#[test]
fn csrf_check() {
    let s = oauth_session("tok");
    assert_eq!(verify_csrf(&s, None), Err("csrf_mismatch"));
    assert_eq!(verify_csrf(&s, Some(&"tok".to_string())), Ok(()));
    assert_eq!(verify_csrf(&s, Some(&"other".to_string())), Err("csrf_mismatch"));
    assert_eq!(verify_csrf(&s, Some(&String::new())), Err("csrf_mismatch"));
}

#[test]
fn callback_without_cookie_fails() {
    let e = callback_begin(request(None, Some("c"), Some("tok"))).err().unwrap();
    assert_eq!(e, CallbackError::MissingSession);
    let r = e.response();
    assert_eq!(r.location, "/auth/error?error=missing_session");
    assert!(matches!(r.cookie, CookieUpdate::Remove(ref n) if n == "session_id"));
}

#[test]
fn callback_rejects_unknown_or_forged_login_state() {
    let s = callback_begin(request(Some("sid"), Some("c"), Some("tok"))).ok().unwrap();
    assert_eq!(s.oauth_session_key(), "oauth_session:sid");
    assert_eq!(s.on_oauth_session(Ok(None)).err().unwrap(), CallbackError::SessionInvalid);
    let s = callback_begin(request(Some("sid"), Some("c"), Some("tok"))).ok().unwrap();
    assert_eq!(s.on_oauth_session(Err(())).err().unwrap(), CallbackError::SessionInvalid);
    let s = callback_begin(request(Some("sid"), Some("c"), Some("forged"))).ok().unwrap();
    let e = s.on_oauth_session(Ok(Some(oauth_session("tok")))).err().unwrap();
    assert_eq!(e, CallbackError::CsrfMismatch);
    assert_eq!(e.response().location, "/auth/error?error=csrf_mismatch");
    let s = callback_begin(request(Some("sid"), None, Some("tok"))).ok().unwrap();
    assert_eq!(s.on_oauth_session(Ok(Some(oauth_session("tok")))).err().unwrap(), CallbackError::MissingCode);
}

#[test]
fn callback_without_state_fails_before_the_token_exchange() {
    let s = callback_begin(request(Some("sid"), Some("c"), None)).ok().unwrap();
    let e = s.on_oauth_session(Ok(Some(oauth_session("tok")))).err().unwrap();
    assert_eq!(e, CallbackError::CsrfMismatch);
    let r = e.response();
    assert_eq!(r.location, "/auth/error?error=csrf_mismatch");
    assert!(matches!(r.cookie, CookieUpdate::Remove(ref n) if n == "session_id"));
}

#[test]
fn failed_token_exchange_reports_the_error_page_itself() {
    let s = callback_begin(request(Some("sid"), Some("c"), Some("tok"))).ok().unwrap();
    let t = s.on_oauth_session(Ok(Some(oauth_session("tok")))).ok().unwrap();
    assert_eq!(t.code(), "c");
    assert_eq!(t.pkce_verifier(), "verifier");
    let e = t.on_token(Err(())).err().unwrap();
    assert_eq!(e, CallbackError::TokenExchangeFailed);
    assert_eq!(e.response().location, "/auth/error?error=/auth/error");
}

#[test]
fn callback_for_a_new_user() {
    let s = callback_begin(request(Some("sid"), Some("code"), Some("tok"))).ok().unwrap();
    let t = s.on_oauth_session(Ok(Some(oauth_session("tok")))).ok().unwrap();
    let u = t.on_token(Ok(TokenGrant { access_token: "access".to_string() })).ok().unwrap();
    assert_eq!(u.access_token(), "access");
    let p = u.on_discord_user(Ok(discord_user())).ok().unwrap();
    assert_eq!(p.provider(), OAuthProvider::Discord);
    assert_eq!(p.provider_user_id(), "80351110224678912");
    let insert = match p.on_provider_lookup(Ok(None)) {
        Ok(UserResolution::Insert(i)) => i,
        _ => panic!("a new account inserts a user"),
    };
    let n = insert.new_user();
    assert_eq!(n.username, "nelly");
    assert_eq!(n.avatar.as_deref(), Some("8342729096ea3675442027381ff50dfe"));
    assert_eq!(n.role, UserRole::User);
    let up = insert.on_user_inserted(Ok(user(11))).ok().unwrap();
    let req = up.provider_upsert();
    assert_eq!(req.user_id, 11);
    assert_eq!(req.provider_user_id, "80351110224678912");
    assert_eq!(req.discriminator.as_deref(), Some("1337"));
    let ss = up.on_provider_upserted_as(Ok(provider(21, 11)), "new-sid".to_string()).ok().unwrap();
    assert_eq!(ss.session_key(), "user_session:new-sid");
    assert_eq!(ss.session_ttl_seconds(), 86_400);
    let rec = ss.session_record(T0);
    assert_eq!(rec.session_id, "new-sid");
    assert_eq!(rec.user_id, 11);
    assert_eq!(rec.role, UserRole::Admin);
    assert_eq!(rec.provider, OAuthProvider::Discord);
    assert_eq!(rec.provider_user_id.as_deref(), Some("80351110224678912"));
    assert_eq!(rec.session_version, 1);
    assert_eq!(rec.expires_at, Timestamp { secs: 1_700_086_400, nanos: 5 });
    assert_eq!(rec.created_at, T0);
    let cleanup = ss.on_session_stored(true).ok().unwrap();
    assert_eq!(cleanup.oauth_session_key(), "oauth_session:sid");
    let r = cleanup.finish("http://front");
    assert_eq!(r.location, "http://front");
    match r.cookie {
        CookieUpdate::Assign(c) => {
            assert_eq!(c.name, "session_id");
            assert_eq!(c.value, "new-sid");
            assert_eq!(c.path, "/");
            assert!(c.http_only && c.secure && c.same_site_lax);
            assert_eq!(c.max_age_seconds, 86_400);
        }
        CookieUpdate::Remove(_) => panic!("success sets the cookie"),
    }
}

fn linked_user_step() -> auth_service::callback::AwaitingProviderUpsert {
    let s = callback_begin(request(Some("sid"), Some("code"), Some("tok"))).ok().unwrap();
    let t = s.on_oauth_session(Ok(Some(oauth_session("tok")))).ok().unwrap();
    let u = t.on_token(Ok(TokenGrant { access_token: "a".to_string() })).ok().unwrap();
    let p = u.on_discord_user(Ok(discord_user())).ok().unwrap();
    let by_id = match p.on_provider_lookup(Ok(Some(provider(21, 11)))) {
        Ok(UserResolution::Lookup(l)) => l,
        _ => panic!("a linked account reads its user"),
    };
    assert_eq!(by_id.user_id_to_read(), 11);
    match by_id.on_user(Ok(Some(user(11)))) {
        Ok(UserResolution::Resolved(r)) => r,
        _ => panic!("the user is known"),
    }
}

#[test]
fn callback_for_a_known_user() {
    let ss = linked_user_step().on_provider_upserted_as(Ok(provider(21, 11)), "new-sid".to_string()).ok().unwrap();
    let e = ss.on_session_stored(false).err().unwrap();
    assert_eq!(e.response().location, "/auth/error?error=session_store_failed");
}

#[test]
fn callback_draws_a_new_session_id() {
    let ss = linked_user_step().on_provider_upserted(Ok(provider(21, 11))).ok().unwrap();
    let key = ss.session_key();
    assert!(key.starts_with("user_session:"));
    assert_eq!(key.len(), "user_session:".len() + 36);
    assert_ne!(key, "user_session:sid");
    let id = key["user_session:".len()..].to_string();
    let cleanup = ss.on_session_stored(true).ok().unwrap();
    assert_eq!(cleanup.oauth_session_key(), "oauth_session:sid");
    match cleanup.finish("/").cookie {
        CookieUpdate::Assign(c) => assert_eq!(c.value, id),
        CookieUpdate::Remove(_) => panic!("success sets the cookie"),
    }
}

#[test]
fn callback_never_keeps_the_incoming_session_id() {
    let e = linked_user_step().on_provider_upserted_as(Ok(provider(21, 11)), "sid".to_string()).err().unwrap();
    assert_eq!(e, CallbackError::SessionStoreFailed);
    let e = linked_user_step().on_provider_upserted_as(Err(()), "new-sid".to_string()).err().unwrap();
    assert_eq!(e, CallbackError::ProviderUpsertFailed);
}

#[test]
fn failed_user_lookups_fail_the_callback() {
    let s = callback_begin(request(Some("sid"), Some("code"), Some("tok"))).ok().unwrap();
    let t = s.on_oauth_session(Ok(Some(oauth_session("tok")))).ok().unwrap();
    let u = t.on_token(Ok(TokenGrant { access_token: "a".to_string() })).ok().unwrap();
    let p = u.on_discord_user(Ok(discord_user())).ok().unwrap();
    let e = p.on_provider_lookup(Err(())).err().unwrap();
    assert_eq!(e, CallbackError::UserLookupFailed);
    assert_eq!(e.response().location, "/auth/error?error=user_lookup_failed");

    let s = callback_begin(request(Some("sid"), Some("code"), Some("tok"))).ok().unwrap();
    let t = s.on_oauth_session(Ok(Some(oauth_session("tok")))).ok().unwrap();
    let u = t.on_token(Ok(TokenGrant { access_token: "a".to_string() })).ok().unwrap();
    let p = u.on_discord_user(Ok(discord_user())).ok().unwrap();
    let by_id = match p.on_provider_lookup(Ok(Some(provider(21, 11)))) {
        Ok(UserResolution::Lookup(l)) => l,
        _ => panic!("lookup"),
    };
    assert_eq!(by_id.on_user(Err(())).err().unwrap(), CallbackError::UserLookupFailed);
}

#[test]
fn vanished_user_is_inserted_again() {
    let s = callback_begin(request(Some("sid"), Some("code"), Some("tok"))).ok().unwrap();
    let t = s.on_oauth_session(Ok(Some(oauth_session("tok")))).ok().unwrap();
    let u = t.on_token(Ok(TokenGrant { access_token: "a".to_string() })).ok().unwrap();
    let p = u.on_discord_user(Ok(discord_user())).ok().unwrap();
    let by_id = match p.on_provider_lookup(Ok(Some(provider(21, 11)))) {
        Ok(UserResolution::Lookup(l)) => l,
        _ => panic!("lookup"),
    };
    let ins = match by_id.on_user(Ok(None)) {
        Ok(UserResolution::Insert(i)) => i,
        _ => panic!("insert"),
    };
    let e = ins.on_user_inserted(Err(())).err().unwrap();
    assert_eq!(e.code(), "user_insert_failed");
}

#[test]
fn callback_failure_codes() {
    let cases = [
        (CallbackError::UserFetchFailed, "user_fetch_failed"),
        (CallbackError::ProviderUpsertFailed, "provider_upsert_failed"),
        (CallbackError::UserLookupFailed, "user_lookup_failed"),
        (CallbackError::SessionInvalid, "session_invalid"),
        (CallbackError::MissingCode, "missing_code"),
    ];
    for (e, code) in cases {
        assert_eq!(e.code(), code);
        assert_eq!(e.response().location, format!("/auth/error?error={}", code));
    }
}

fn stored_session(user_id: i32) -> UserSession {
    UserSession {
        session_id: "sid".to_string(),
        user_id,
        username: "nelly".to_string(),
        provider_user_id: Some("42".to_string()),
        avatar: Some("hash".to_string()),
        role: UserRole::User,
        provider: OAuthProvider::Discord,
        session_version: 1,
        created_at: T0,
        expires_at: T0,
        last_activity: T0,
        ip_address: None,
        user_agent: None,
    }
}

#[test]
fn refresh_failures() {
    let e = refresh_begin(None).err().unwrap();
    let r = e.response();
    assert_eq!((r.status, r.message.as_str()), (401, "No session"));
    let l = refresh_begin(Some("sid".to_string())).ok().unwrap();
    assert_eq!(l.session_key(), "user_session:sid");
    assert_eq!(l.on_session(Ok(None)).err().unwrap(), RefreshError::SessionNotFound);
    let l = refresh_begin(Some("sid".to_string())).ok().unwrap();
    let r = l.on_session(Err(())).err().unwrap().response();
    assert_eq!((r.status, r.message.as_str()), (401, "Failed to load session"));
    let t = refresh_begin(Some("sid".to_string())).ok().unwrap().on_session(Ok(Some(stored_session(5)))).ok().unwrap();
    assert_eq!(t.token_owner_id(), 5);
    let r = t.on_token_row(Err(()), &KEY).err().unwrap().response();
    assert_eq!((r.status, r.message.as_str()), (500, "Failed to load refresh token"));
    let t = refresh_begin(Some("sid".to_string())).ok().unwrap().on_session(Ok(Some(stored_session(5)))).ok().unwrap();
    let r = t.on_token_row(Ok(None), &KEY).err().unwrap().response();
    assert_eq!((r.status, r.message.as_str()), (401, "No refresh token available"));
}

fn token_row(encrypted: Vec<u8>, nonce: Vec<u8>) -> OAuthToken {
    OAuthToken {
        id: 1,
        user_provider_id: 5,
        encrypted_refresh_token: encrypted,
        refresh_token_nonce: nonce,
        previous_refresh_token: None,
        previous_refresh_token_nonce: None,
        created_at: T0,
        updated_at: T0,
        last_token_rotation: None,
    }
}

#[test]
fn refresh_rotates_the_stored_token() {
    let (ct, nonce) = encrypt_token(&KEY, "old-refresh").unwrap();
    let t = refresh_begin(Some("sid".to_string())).ok().unwrap().on_session(Ok(Some(stored_session(5)))).ok().unwrap();
    let x = t.on_token_row(Ok(Some(token_row(ct, nonce))), &KEY).ok().unwrap();
    assert_eq!(x.refresh_token_text(), "old-refresh");
    let grant = RefreshGrant {
        access_token: "new-access".to_string(),
        refresh_token: Some("new-refresh".to_string()),
        expires_in: Some(604_800),
    };
    let store = match x.on_refreshed(Ok(grant), &KEY).ok().unwrap() {
        RefreshStep::StoreToken(s) => s,
        RefreshStep::StoreSession(_) => panic!("rotation"),
    };
    let rec = store.token_record();
    assert_eq!(rec.user_provider_id, 5);
    assert_eq!(decrypt_token(&KEY, &rec.encrypted_refresh_token, &rec.nonce), Ok("new-refresh".to_string()));
    let ss = store.on_token_stored(true).ok().unwrap();
    assert_eq!(ss.session_key(), "user_session:sid");
    assert_eq!(ss.session_ttl_seconds(), 2_592_000);
    assert_eq!(ss.session_to_store().user_id, 5);
    let ok = ss.on_session_stored(true).ok().unwrap();
    assert_eq!(ok.message, "Session refreshed");
    assert_eq!(ok.access_token, "new-access");
    assert_eq!(ok.expires_in, Some(604_800));
}

#[test]
fn refresh_with_undecryptable_token_or_refusal() {
    let t = refresh_begin(Some("sid".to_string())).ok().unwrap().on_session(Ok(Some(stored_session(5)))).ok().unwrap();
    let r = t.on_token_row(Ok(Some(token_row(vec![1, 2, 3], vec![0; 12]))), &KEY).err().unwrap().response();
    assert_eq!((r.status, r.message.as_str()), (500, "Failed to decrypt refresh token"));
    let (ct, nonce) = encrypt_token(&KEY, "r").unwrap();
    let t = refresh_begin(Some("sid".to_string())).ok().unwrap().on_session(Ok(Some(stored_session(5)))).ok().unwrap();
    let x = t.on_token_row(Ok(Some(token_row(ct, nonce))), &KEY).ok().unwrap();
    let r = x.on_refreshed(Err(()), &KEY).err().unwrap().response();
    assert_eq!((r.status, r.message.as_str()), (401, "Failed to refresh token"));
    let (ct, nonce) = encrypt_token(&KEY, "r").unwrap();
    let t = refresh_begin(Some("sid".to_string())).ok().unwrap().on_session(Ok(Some(stored_session(5)))).ok().unwrap();
    let x = t.on_token_row(Ok(Some(token_row(ct, nonce))), &KEY).ok().unwrap();
    let grant = RefreshGrant { access_token: "a".to_string(), refresh_token: None, expires_in: None };
    match x.on_refreshed(Ok(grant), &KEY).ok().unwrap() {
        RefreshStep::StoreSession(ss) => {
            let r = ss.on_session_stored(false).err().unwrap().response();
            assert_eq!((r.status, r.message.as_str()), (500, "Failed to store session"));
        }
        RefreshStep::StoreToken(_) => panic!("no rotation"),
    }
}

#[test]
fn me_answers() {
    match me_begin(None) {
        MeStep::Unauthorized(r) => {
            assert_eq!(r.status, 401);
            assert_eq!(r.user.id, -1);
            assert_eq!(r.user.username, "");
            assert_eq!(r.user.avatar, None);
            assert_eq!(r.user.role, UserRole::User);
        }
        MeStep::Load(_) => panic!("no cookie"),
    }
    let load = match me_begin(Some("sid".to_string())) {
        MeStep::Load(l) => l,
        MeStep::Unauthorized(_) => panic!("cookie"),
    };
    assert_eq!(load.session_key(), "user_session:sid");
    let a = load.on_session(Ok(Some(stored_session(5))));
    assert_eq!(a.response.status, 200);
    assert_eq!(a.response.user.id, 5);
    assert_eq!(a.response.user.username, "nelly");
    assert_eq!(a.response.user.avatar.as_deref(), Some("https://cdn.discordapp.com/avatars/42/hash.png"));
    assert_eq!(a.extend_ttl, Some(("user_session:sid".to_string(), 2_592_000)));
    let load = match me_begin(Some("sid".to_string())) {
        MeStep::Load(l) => l,
        MeStep::Unauthorized(_) => panic!("cookie"),
    };
    let a = load.on_session(Err(()));
    assert_eq!(a.response.status, 401);
    assert_eq!(a.extend_ttl, None);
    assert_eq!(unauthorized().user.id, -1);
}

#[test]
fn logout_deletes_the_session_and_the_cookie() {
    let p = logout(Some("sid".to_string()));
    assert_eq!(p.delete_key, Some("user_session:sid".to_string()));
    assert_eq!(p.response.location, "/");
    assert!(matches!(p.response.cookie, CookieUpdate::Remove(ref n) if n == "session_id"));
    let p = logout(None);
    assert_eq!(p.delete_key, None);
    assert_eq!(p.response.location, "/");
}

fn client() -> OAuthClient {
    create_oauth_client(&Config {
        auth_service_port: 8080,
        auth_db_port: 5432,
        database_url: "postgres://db".to_string(),
        redis_url: "redis://r".to_string(),
        discord_client_id: "id".to_string(),
        discord_client_secret: "secret".to_string(),
        discord_redirect_uri: "http://localhost:3000/discord/callback".to_string(),
        discord_auth_url: "https://discord.com/oauth2/authorize".to_string(),
        discord_token_url: "https://discord.com/api/oauth2/token".to_string(),
        encryption_key: [0u8; 32],
        is_production: false,
        frontend_url: "http://localhost".to_string(),
    })
    .ok()
    .unwrap()
}

#[test]
fn authorization_url_carries_state_and_challenge() {
    let scopes = vec!["identify".to_string(), "email".to_string()];
    let url = authorize_url(&client(), &scopes, "csrf_token", "dBjftJeZ4CVP-mB92K27uhbUJU1p1r_wW1gFWFOEjXk");
    assert_eq!(
        url,
        "https://discord.com/oauth2/authorize?response_type=code&client_id=id&state=csrf_token\
         &code_challenge=E9Melhoa2OwvFrEMTJguCHaoeK1t8URWbuGJSstw-cM&code_challenge_method=S256\
         &redirect_uri=http%3A%2F%2Flocalhost%3A3000%2Fdiscord%2Fcallback&scope=identify+email"
    );
}

#[test]
fn login_start_and_redirect() {
    let s = login_begin();
    let key = s.oauth_session_key();
    assert!(key.starts_with("oauth_session:"));
    assert_eq!(key.len(), "oauth_session:".len() + 36);
    assert_eq!(s.ttl_seconds(), 600);
    let st = s.oauth_session_to_store();
    assert_eq!(st.csrf_token.len(), 22);
    assert_eq!(st.pkce_verifier.len(), 43);
    assert_eq!(st.nonce, "");
    let csrf = st.csrf_token.clone();
    let challenge = s.pkce_challenge_text().to_string();
    assert_eq!(challenge.len(), 43);
    assert_ne!(challenge, st.pkce_verifier);
    let id = key["oauth_session:".len()..].to_string();
    let r = s.on_stored(Ok(()), &client()).ok().unwrap();
    assert_eq!(r.cookie.value, id);
    assert_eq!(r.cookie.max_age_seconds, 3600);
    assert!(r.cookie.secure && r.cookie.http_only && r.cookie.same_site_lax);
    assert!(r.location.starts_with("https://discord.com/oauth2/authorize?response_type=code&client_id=id&state="));
    assert!(r.location.contains(&format!("&state={}&", csrf)));
    assert!(r.location.contains(&format!("&code_challenge={}&code_challenge_method=S256&", challenge)));
    assert!(r.location.ends_with("&scope=identify+email"));
    let e = login_begin().on_stored(Err("connection refused".to_string()), &client()).err().unwrap();
    assert_eq!(e.status, 500);
    assert_eq!(e.message, "Login error: connection refused");
    assert_ne!(login_begin().oauth_session_key(), login_begin().oauth_session_key());
}

#[test]
fn commissions_answers() {
    let c = Commission {
        id: 1,
        user_id: "u".to_string(),
        title: "t".to_string(),
        description: "d".to_string(),
        status: "open".to_string(),
    };
    let (status, list) = commissions_response(Ok(vec![c]));
    assert_eq!(status, 200);
    assert_eq!(list.len(), 1);
    let (status, list) = commissions_response(Err(()));
    assert_eq!((status, list.len()), (200, 0));
    assert_eq!(create_commission_status(Err(())), 201);
    assert_eq!(create_commission_status(Ok(())), 201);
}
