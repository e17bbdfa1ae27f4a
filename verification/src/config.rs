//! The service's configuration, checked from the values of its environment.

use vstd::prelude::*;
use vstd::utf8::encode_utf8;
use crate::text::{parse_unsigned, parse_u16};

verus! {

/// Everything the auth service is configured with.
pub struct Config {
    pub auth_service_port: u16,
    pub auth_db_port: u16,
    pub database_url: String,
    pub redis_url: String,
    pub discord_client_id: String,
    pub discord_client_secret: String,
    pub discord_redirect_uri: String,
    pub discord_auth_url: String,
    pub discord_token_url: String,
    pub encryption_key: [u8; 32],
    pub is_production: bool,
    pub frontend_url: String,
}

/// The environment variables the configuration is read from, each as found
/// (`None` where it is unset).
pub struct EnvVars {
    pub token_encryption_key: Option<String>,
    pub auth_service_port: Option<String>,
    pub auth_db_port: Option<String>,
    pub auth_db_url: Option<String>,
    pub redis_url: Option<String>,
    pub discord_client_id: Option<String>,
    pub discord_client_secret: Option<String>,
    pub discord_redirect_uri: Option<String>,
    pub discord_auth_url: Option<String>,
    pub discord_token_url: Option<String>,
    pub environment: Option<String>,
    pub frontend_url: Option<String>,
}

/// Why the environment does not make a configuration. The variables are
/// checked in a fixed order and the first problem is reported.
#[derive(Clone, Copy, Debug, PartialEq, Eq, Structural)]
pub enum ConfigError {
    EncryptionKeyMissing,
    EncryptionKeyNotHex,
    EncryptionKeyWrongLength,
    AuthServicePortMissing,
    AuthServicePortNotANumber,
    AuthDbPortMissing,
    AuthDbPortNotANumber,
    DatabaseUrlMissing,
    RedisUrlMissing,
    DiscordClientIdMissing,
    DiscordClientSecretMissing,
    DiscordRedirectUriMissing,
    DiscordAuthUrlMissing,
    DiscordTokenUrlMissing,
    EnvironmentMissing,
    FrontendUrlMissing,
}

/// The message the service stops with for each configuration problem.
pub open spec fn config_error_message(e: ConfigError) -> Seq<char> {
    match e {
        ConfigError::EncryptionKeyMissing => "TOKEN_ENCRYPTION_KEY required"@,
        ConfigError::EncryptionKeyNotHex => "Failed to decode TOKEN_ENCRYPTION_KEY from HEX"@,
        ConfigError::EncryptionKeyWrongLength => "Decoded key must be exactly 32 bytes"@,
        ConfigError::AuthServicePortMissing => "AUTH_SERVICE_PORT must be set"@,
        ConfigError::AuthServicePortNotANumber => "AUTH_SERVICE_PORT must be a number"@,
        ConfigError::AuthDbPortMissing => "AUTH_DB_PORT must be set"@,
        ConfigError::AuthDbPortNotANumber => "AUTH_DB_PORT must be a number"@,
        ConfigError::DatabaseUrlMissing => "DATABASE_URL must be set"@,
        ConfigError::RedisUrlMissing => "REDIS_URL must be set"@,
        ConfigError::DiscordClientIdMissing => "DISCORD_CLIENT_ID must be set"@,
        ConfigError::DiscordClientSecretMissing => "DISCORD_CLIENT_SECRET must be set"@,
        ConfigError::DiscordRedirectUriMissing => "DISCORD_REDIRECT_URI must be set"@,
        ConfigError::DiscordAuthUrlMissing => "DISCORD_AUTH_URL must be set"@,
        ConfigError::DiscordTokenUrlMissing => "DISCORD_TOKEN_URL must be set"@,
        ConfigError::EnvironmentMissing => "ENVRONMENT must be set"@,
        ConfigError::FrontendUrlMissing => "FRONTEND_URL must be set"@,
    }
}

impl ConfigError {
    /// The message the service stops with.
    pub fn message(&self) -> (m: &'static str)
        ensures
            m@ == config_error_message(*self),
    {
        match self {
            ConfigError::EncryptionKeyMissing => "TOKEN_ENCRYPTION_KEY required",
            ConfigError::EncryptionKeyNotHex => "Failed to decode TOKEN_ENCRYPTION_KEY from HEX",
            ConfigError::EncryptionKeyWrongLength => "Decoded key must be exactly 32 bytes",
            ConfigError::AuthServicePortMissing => "AUTH_SERVICE_PORT must be set",
            ConfigError::AuthServicePortNotANumber => "AUTH_SERVICE_PORT must be a number",
            ConfigError::AuthDbPortMissing => "AUTH_DB_PORT must be set",
            ConfigError::AuthDbPortNotANumber => "AUTH_DB_PORT must be a number",
            ConfigError::DatabaseUrlMissing => "DATABASE_URL must be set",
            ConfigError::RedisUrlMissing => "REDIS_URL must be set",
            ConfigError::DiscordClientIdMissing => "DISCORD_CLIENT_ID must be set",
            ConfigError::DiscordClientSecretMissing => "DISCORD_CLIENT_SECRET must be set",
            ConfigError::DiscordRedirectUriMissing => "DISCORD_REDIRECT_URI must be set",
            ConfigError::DiscordAuthUrlMissing => "DISCORD_AUTH_URL must be set",
            ConfigError::DiscordTokenUrlMissing => "DISCORD_TOKEN_URL must be set",
            ConfigError::EnvironmentMissing => "ENVRONMENT must be set",
            ConfigError::FrontendUrlMissing => "FRONTEND_URL must be set",
        }
    }
}

/// The value of a hexadecimal digit byte, upper or lower case.
pub open spec fn hex_digit(b: u8) -> Option<u8> {
    if 0x30 <= b && b <= 0x39 {
        Some((b - 0x30) as u8)
    } else if 0x41 <= b && b <= 0x46 {
        Some((b - 0x41 + 10) as u8)
    } else if 0x61 <= b && b <= 0x66 {
        Some((b - 0x61 + 10) as u8)
    } else {
        None
    }
}

/// Hex decoding: an even number of hex digits, each pair one byte, high
/// nibble first.
pub open spec fn hex_decode(bytes: Seq<u8>) -> Option<Seq<u8>>
    decreases bytes.len(),
{
    if bytes.len() % 2 != 0 {
        None
    } else if bytes.len() == 0 {
        Some(Seq::<u8>::empty())
    } else {
        match (hex_digit(bytes[0]), hex_digit(bytes[1]), hex_decode(bytes.subrange(2, bytes.len() as int))) {
            (Some(hi), Some(lo), Some(rest)) => Some(seq![(hi * 16 + lo) as u8] + rest),
            _ => None,
        }
    }
}

/// Decodes with `hex::decode`, whose source checks that the length is even
/// and reads each pair of hex digits (either case) as one byte, high nibble
/// first; any other byte is an error.
#[verifier::external_body]
fn decode_hex(s: &str) -> (bytes: Option<Vec<u8>>)
    ensures
        bytes is Some <==> hex_decode(encode_utf8(s@)) is Some,
        bytes matches Some(b) ==> hex_decode(encode_utf8(s@)) == Some(b@),
{
    hex::decode(s).ok()
}

/// The encryption key that the text `s` gives: hex for exactly 32 bytes.
pub open spec fn encryption_key_of(s: Seq<char>) -> Result<Seq<u8>, ConfigError> {
    match hex_decode(encode_utf8(s)) {
        None => Err(ConfigError::EncryptionKeyNotHex),
        Some(b) => if b.len() == 32 {
            Ok(b)
        } else {
            Err(ConfigError::EncryptionKeyWrongLength)
        },
    }
}

/// Reads the encryption key from its hex text.
pub fn parse_encryption_key(s: &str) -> (res: Result<[u8; 32], ConfigError>)
    ensures
        match encryption_key_of(s@) {
            Ok(k) => res matches Ok(a) && a@ == k,
            Err(e) => res == Err::<[u8; 32], ConfigError>(e),
        },
{
    let bytes = match decode_hex(s) {
        Some(b) => b,
        None => return Err(ConfigError::EncryptionKeyNotHex),
    };
    if bytes.len() != 32 {
        return Err(ConfigError::EncryptionKeyWrongLength);
    }
    let mut key = [0u8; 32];
    let mut i: usize = 0;
    while i < 32
        invariant
            i <= 32,
            bytes@.len() == 32,
            forall|j: int| 0 <= j < i ==> key@[j] == bytes@[j],
        decreases 32 - i,
    {
        key[i] = bytes[i];
        i = i + 1;
    }
    assert(key@ =~= bytes@);
    Ok(key)
}

/// A port variable: set, and a `u16`.
pub open spec fn port_of(v: Option<String>, missing: ConfigError, not_number: ConfigError) -> Result<u16, ConfigError> {
    match v {
        None => Err(missing),
        Some(s) => match parse_unsigned(s@, u16::MAX as nat) {
            None => Err(not_number),
            Some(n) => Ok(n as u16),
        },
    }
}

/// Every text that `str::parse::<u16>` reads is an accepted port, with the
/// value it reads as: all of 0 to 65535, not only part of that range. A
/// missing variable is the `missing` error and any other text the
/// `not_number` one.
pub proof fn lemma_port_is_the_parsed_number(v: Option<String>, missing: ConfigError, not_number: ConfigError)
    ensures
        v is None ==> port_of(v, missing, not_number) == Err::<u16, ConfigError>(missing),
        v matches Some(s) ==> match parse_unsigned(s@, u16::MAX as nat) {
            Some(n) => n <= 65535 && port_of(v, missing, not_number) == Ok::<u16, ConfigError>(n as u16),
            None => port_of(v, missing, not_number) == Err::<u16, ConfigError>(not_number),
        },
{
}

fn read_port(v: Option<String>, missing: ConfigError, not_number: ConfigError) -> (res: Result<u16, ConfigError>)
    ensures
        res == port_of(v, missing, not_number),
        v is None ==> res == Err::<u16, ConfigError>(missing),
        v matches Some(s) ==> match parse_unsigned(s@, u16::MAX as nat) {
            Some(n) => res == Ok::<u16, ConfigError>(n as u16),
            None => res == Err::<u16, ConfigError>(not_number),
        },
{
    match v {
        None => Err(missing),
        Some(s) => match parse_u16(s.as_str()) {
            None => Err(not_number),
            Some(n) => Ok(n),
        },
    }
}

fn required(v: Option<String>, missing: ConfigError) -> (res: Result<String, ConfigError>)
    ensures
        match v {
            Some(s) => res == Ok::<String, ConfigError>(s),
            None => res == Err::<String, ConfigError>(missing),
        },
{
    match v {
        Some(s) => Ok(s),
        None => Err(missing),
    }
}

/// The first problem with the environment, checking the variables in the
/// order the service reads them, or `None` when there is none.
pub open spec fn config_error(v: EnvVars) -> Option<ConfigError> {
    if v.token_encryption_key is None {
        Some(ConfigError::EncryptionKeyMissing)
    } else if encryption_key_of(v.token_encryption_key->0@) is Err {
        Some(encryption_key_of(v.token_encryption_key->0@)->Err_0)
    } else if port_of(v.auth_service_port, ConfigError::AuthServicePortMissing, ConfigError::AuthServicePortNotANumber) is Err {
        Some(port_of(v.auth_service_port, ConfigError::AuthServicePortMissing, ConfigError::AuthServicePortNotANumber)->Err_0)
    } else if port_of(v.auth_db_port, ConfigError::AuthDbPortMissing, ConfigError::AuthDbPortNotANumber) is Err {
        Some(port_of(v.auth_db_port, ConfigError::AuthDbPortMissing, ConfigError::AuthDbPortNotANumber)->Err_0)
    } else if v.auth_db_url is None {
        Some(ConfigError::DatabaseUrlMissing)
    } else if v.redis_url is None {
        Some(ConfigError::RedisUrlMissing)
    } else if v.discord_client_id is None {
        Some(ConfigError::DiscordClientIdMissing)
    } else if v.discord_client_secret is None {
        Some(ConfigError::DiscordClientSecretMissing)
    } else if v.discord_redirect_uri is None {
        Some(ConfigError::DiscordRedirectUriMissing)
    } else if v.discord_auth_url is None {
        Some(ConfigError::DiscordAuthUrlMissing)
    } else if v.discord_token_url is None {
        Some(ConfigError::DiscordTokenUrlMissing)
    } else if v.environment is None {
        Some(ConfigError::EnvironmentMissing)
    } else if v.frontend_url is None {
        Some(ConfigError::FrontendUrlMissing)
    } else {
        None
    }
}

impl Config {
    /// Builds the configuration from the environment's values. The key is the
    /// hex of 32 bytes, both ports are `u16` numbers, every other variable
    /// must be set, and the service is in production exactly when
    /// `ENVIRONMENT` is `production`.
    pub fn from_vars(v: EnvVars) -> (res: Result<Config, ConfigError>)
        ensures
            match config_error(v) {
                Some(e) => res == Err::<Config, ConfigError>(e),
                None => res matches Ok(c) && {
                    &&& encryption_key_of(v.token_encryption_key->0@) == Ok::<Seq<u8>, ConfigError>(c.encryption_key@)
                    &&& port_of(v.auth_service_port, ConfigError::AuthServicePortMissing, ConfigError::AuthServicePortNotANumber)
                        == Ok::<u16, ConfigError>(c.auth_service_port)
                    &&& port_of(v.auth_db_port, ConfigError::AuthDbPortMissing, ConfigError::AuthDbPortNotANumber)
                        == Ok::<u16, ConfigError>(c.auth_db_port)
                    &&& v.auth_db_url == Some(c.database_url)
                    &&& v.redis_url == Some(c.redis_url)
                    &&& v.discord_client_id == Some(c.discord_client_id)
                    &&& v.discord_client_secret == Some(c.discord_client_secret)
                    &&& v.discord_redirect_uri == Some(c.discord_redirect_uri)
                    &&& v.discord_auth_url == Some(c.discord_auth_url)
                    &&& v.discord_token_url == Some(c.discord_token_url)
                    &&& c.is_production == (v.environment->0@ == "production"@)
                    &&& v.frontend_url == Some(c.frontend_url)
                },
            },
    {
        let key_text = required(v.token_encryption_key, ConfigError::EncryptionKeyMissing)?;
        let encryption_key = parse_encryption_key(key_text.as_str())?;
        let auth_service_port = read_port(
            v.auth_service_port,
            ConfigError::AuthServicePortMissing,
            ConfigError::AuthServicePortNotANumber,
        )?;
        let auth_db_port = read_port(v.auth_db_port, ConfigError::AuthDbPortMissing, ConfigError::AuthDbPortNotANumber)?;
        let database_url = required(v.auth_db_url, ConfigError::DatabaseUrlMissing)?;
        let redis_url = required(v.redis_url, ConfigError::RedisUrlMissing)?;
        let discord_client_id = required(v.discord_client_id, ConfigError::DiscordClientIdMissing)?;
        let discord_client_secret = required(v.discord_client_secret, ConfigError::DiscordClientSecretMissing)?;
        let discord_redirect_uri = required(v.discord_redirect_uri, ConfigError::DiscordRedirectUriMissing)?;
        let discord_auth_url = required(v.discord_auth_url, ConfigError::DiscordAuthUrlMissing)?;
        let discord_token_url = required(v.discord_token_url, ConfigError::DiscordTokenUrlMissing)?;
        let environment = required(v.environment, ConfigError::EnvironmentMissing)?;
        let production = String::from_str("production");
        let is_production = production == environment;
        let frontend_url = required(v.frontend_url, ConfigError::FrontendUrlMissing)?;
        Ok(Config {
            auth_service_port,
            auth_db_port,
            database_url,
            redis_url,
            discord_client_id,
            discord_client_secret,
            discord_redirect_uri,
            discord_auth_url,
            discord_token_url,
            encryption_key,
            is_production,
            frontend_url,
        })
    }
}

} // verus!
