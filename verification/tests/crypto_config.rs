use aes_gcm::aead::Aead;
use aes_gcm::{Aes256Gcm, Key, KeyInit, Nonce};
use auth_service::config::{parse_encryption_key, Config, ConfigError, EnvVars};
use auth_service::crypto::{decrypt_token, encrypt_token, CryptoError};

const KEY_HEX: &str = "000102030405060708090a0b0c0d0e0f101112131415161718191A1B1C1D1E1F";

fn key() -> [u8; 32] {
    let mut k = [0u8; 32];
    for (i, b) in k.iter_mut().enumerate() {
        *b = i as u8;
    }
    k
}

#[test]
fn encrypted_token_decrypts_to_itself() {
    let k = key();
    for token in ["refresh-token", "", "ünïcödé ✓"] {
        let (ct, nonce) = encrypt_token(&k, token).unwrap();
        assert_eq!(nonce.len(), 12);
        assert_eq!(ct.len(), token.len() + 16);
        if !token.is_empty() {
            assert_ne!(&ct[..token.len()], token.as_bytes());
        }
        assert_eq!(decrypt_token(&k, &ct, &nonce), Ok(token.to_string()));
    }
}

#[test]
fn fresh_nonce_each_time() {
    let k = key();
    let (c1, n1) = encrypt_token(&k, "same").unwrap();
    let (c2, n2) = encrypt_token(&k, "same").unwrap();
    assert!(n1 != n2 || c1 == c2);
}

#[test]
fn wrong_nonce_length_is_refused() {
    let k = key();
    let (ct, _) = encrypt_token(&k, "t").unwrap();
    assert_eq!(decrypt_token(&k, &ct, &[0u8; 11]), Err(CryptoError::InvalidNonceLength));
    assert_eq!(decrypt_token(&k, &ct, b"unique nonce12"), Err(CryptoError::InvalidNonceLength));
    assert_eq!(CryptoError::InvalidNonceLength.message(), "Invalid nonce length");
}

#[test]
fn tampered_or_foreign_ciphertext_does_not_open() {
    let k = key();
    let (mut ct, nonce) = encrypt_token(&k, "secret").unwrap();
    let mut other = k;
    other[0] ^= 1;
    assert_eq!(decrypt_token(&other, &ct, &nonce), Err(CryptoError::DecryptionFailed));
    ct[0] ^= 0x80;
    assert_eq!(decrypt_token(&k, &ct, &nonce), Err(CryptoError::DecryptionFailed));
    assert_eq!(decrypt_token(&k, &[1, 2, 3], &nonce), Err(CryptoError::DecryptionFailed));
}

#[test]
fn non_utf8_plaintext_is_refused() {
    let k = key();
    let nonce = [7u8; 12];
    let cipher = Aes256Gcm::new(Key::<Aes256Gcm>::from_slice(&k));
    let ct = cipher.encrypt(Nonce::from_slice(&nonce), &[0xff, 0xfe][..]).unwrap();
    let e = decrypt_token(&k, &ct, &nonce).err().unwrap();
    let expected = String::from_utf8(vec![0xff, 0xfe]).err().unwrap().to_string();
    assert_eq!(e, CryptoError::InvalidUtf8(expected.clone()));
    assert_eq!(e.message(), expected);
    assert_eq!(e.message(), "invalid utf-8 sequence of 1 bytes from index 0");
}

#[test]
fn key_from_hex() {
    assert_eq!(parse_encryption_key(KEY_HEX), Ok(key()));
    assert_eq!(parse_encryption_key("00"), Err(ConfigError::EncryptionKeyWrongLength));
    assert_eq!(parse_encryption_key(""), Err(ConfigError::EncryptionKeyWrongLength));
    assert_eq!(parse_encryption_key("0"), Err(ConfigError::EncryptionKeyNotHex));
    assert_eq!(parse_encryption_key("zz"), Err(ConfigError::EncryptionKeyNotHex));
    assert_eq!(parse_encryption_key(&"ab".repeat(33)), Err(ConfigError::EncryptionKeyWrongLength));
}

fn vars() -> EnvVars {
    let s = |v: &str| Some(v.to_string());
    EnvVars {
        token_encryption_key: s(KEY_HEX),
        auth_service_port: s("8080"),
        auth_db_port: s("5432"),
        auth_db_url: s("postgres://db/auth"),
        redis_url: s("redis://cache"),
        discord_client_id: s("client"),
        discord_client_secret: s("secret"),
        discord_redirect_uri: s("http://localhost/discord/callback"),
        discord_auth_url: s("https://discord.com/oauth2/authorize"),
        discord_token_url: s("https://discord.com/api/oauth2/token"),
        environment: s("production"),
        frontend_url: s("http://localhost"),
    }
}

#[test]
fn config_from_complete_environment() {
    let c = Config::from_vars(vars()).ok().unwrap();
    assert_eq!(c.auth_service_port, 8080);
    assert_eq!(c.auth_db_port, 5432);
    assert_eq!(c.database_url, "postgres://db/auth");
    assert_eq!(c.redis_url, "redis://cache");
    assert_eq!(c.discord_client_id, "client");
    assert_eq!(c.discord_client_secret, "secret");
    assert_eq!(c.encryption_key, key());
    assert!(c.is_production);
    assert_eq!(c.frontend_url, "http://localhost");
}

#[test]
fn only_production_is_production() {
    let mut v = vars();
    v.environment = Some("development".to_string());
    assert!(!Config::from_vars(v).ok().unwrap().is_production);
    let mut v = vars();
    v.environment = Some("Production".to_string());
    assert!(!Config::from_vars(v).ok().unwrap().is_production);
}

#[test]
fn config_errors_in_reading_order() {
    let err = |v: EnvVars| Config::from_vars(v).err().unwrap();
    let mut v = vars();
    v.token_encryption_key = None;
    v.frontend_url = None;
    assert_eq!(err(v), ConfigError::EncryptionKeyMissing);
    assert_eq!(ConfigError::EncryptionKeyMissing.message(), "TOKEN_ENCRYPTION_KEY required");
    let mut v = vars();
    v.token_encryption_key = Some("nothex".to_string());
    assert_eq!(err(v), ConfigError::EncryptionKeyNotHex);
    let mut v = vars();
    v.auth_service_port = Some("http".to_string());
    assert_eq!(err(v), ConfigError::AuthServicePortNotANumber);
    assert_eq!(ConfigError::AuthServicePortNotANumber.message(), "AUTH_SERVICE_PORT must be a number");
    let mut v = vars();
    v.auth_db_port = None;
    v.redis_url = None;
    assert_eq!(err(v), ConfigError::AuthDbPortMissing);
    let mut v = vars();
    v.auth_db_url = None;
    assert_eq!(err(v), ConfigError::DatabaseUrlMissing);
    assert_eq!(ConfigError::DatabaseUrlMissing.message(), "DATABASE_URL must be set");
    let mut v = vars();
    v.environment = None;
    v.frontend_url = None;
    assert_eq!(err(v), ConfigError::EnvironmentMissing);
    assert_eq!(ConfigError::EnvironmentMissing.message(), "ENVRONMENT must be set");
    let mut v = vars();
    v.frontend_url = None;
    assert_eq!(err(v), ConfigError::FrontendUrlMissing);
}
