//! Sealing refresh tokens with AES-256-GCM before they reach Postgres.

use vstd::prelude::*;
use vstd::slice::slice_to_vec;
use vstd::utf8::{decode_utf8, encode_utf8, valid_utf8, encode_utf8_valid_utf8, encode_utf8_decode_utf8};
use aes_gcm::{Aes256Gcm, Key, Nonce, KeyInit};
use aes_gcm::aead::Aead;
use rand::RngCore;

verus! {

/// The longest plaintext, in bytes, that AES-GCM seals: 2^36 bytes.
pub const AES_GCM_MAX_PLAINTEXT: u64 = 68719476736;

/// The length of an AES-GCM nonce, in bytes.
pub const NONCE_LEN: usize = 12;

/// The length of an AES-GCM tag, in bytes.
pub const TAG_LEN: usize = 16;

/// What AES-256-GCM produces when it seals `plaintext` under `key` and
/// `nonce` with no associated data: the ciphertext followed by the tag.
pub uninterp spec fn aes256gcm_seal(key: Seq<u8>, nonce: Seq<u8>, plaintext: Seq<u8>) -> Seq<u8>;

/// What AES-256-GCM gives back when it opens `ciphertext` (tag included)
/// under `key` and `nonce` with no associated data: the plaintext, or nothing
/// when the tag does not match.
pub uninterp spec fn aes256gcm_open(key: Seq<u8>, nonce: Seq<u8>, ciphertext: Seq<u8>) -> Option<Seq<u8>>;

/// Seals with `aes_gcm`'s `Aes256Gcm::encrypt` (through `Aead` over
/// `AeadInPlace`), on the cipher that `KeyInit::new` makes of the key. Its
/// source refuses a plaintext longer than 2^36 bytes and otherwise returns
/// the sealed bytes, a function of key, nonce and plaintext: the ciphertext,
/// as long as the plaintext, followed by the 16-byte tag.
#[verifier::external_body]
fn aes256gcm_encrypt(key: &[u8; 32], nonce: &[u8], plaintext: &[u8]) -> (sealed: Option<Vec<u8>>)
    requires
        nonce@.len() == NONCE_LEN,
    ensures
        sealed is Some <==> plaintext@.len() <= AES_GCM_MAX_PLAINTEXT,
        sealed matches Some(c) ==> c@ == aes256gcm_seal(key@, nonce@, plaintext@),
        sealed matches Some(c) ==> c@.len() == plaintext@.len() + TAG_LEN,
{
    let cipher = Aes256Gcm::new(Key::<Aes256Gcm>::from_slice(key));
    cipher.encrypt(Nonce::from_slice(nonce), plaintext).ok()
}

/// Opens with `aes_gcm`'s `Aes256Gcm::decrypt`, on the cipher that
/// `KeyInit::new` makes of the key. The result is a function of
/// key, nonce and ciphertext; opening what sealing produced under the same key
/// and nonce gives back the plaintext (AES-GCM is an AEAD, and its source
/// recomputes the tag and keystream that sealing used). Nothing else about
/// which ciphertexts open is claimed.
#[verifier::external_body]
fn aes256gcm_decrypt(key: &[u8; 32], nonce: &[u8], ciphertext: &[u8]) -> (opened: Option<Vec<u8>>)
    requires
        nonce@.len() == NONCE_LEN,
    ensures
        opened is Some <==> aes256gcm_open(key@, nonce@, ciphertext@) is Some,
        opened matches Some(p) ==> aes256gcm_open(key@, nonce@, ciphertext@) == Some(p@),
        opened is None ==> forall|m: Seq<u8>|
            m.len() <= AES_GCM_MAX_PLAINTEXT ==> #[trigger] aes256gcm_seal(key@, nonce@, m) != ciphertext@,
        opened matches Some(p) ==> forall|m: Seq<u8>|
            m.len() <= AES_GCM_MAX_PLAINTEXT && #[trigger] aes256gcm_seal(key@, nonce@, m) == ciphertext@
                ==> p@ == m,
{
    let cipher = Aes256Gcm::new(Key::<Aes256Gcm>::from_slice(key));
    cipher.decrypt(Nonce::from_slice(nonce), ciphertext).ok()
}

/// Draws twelve bytes from `rand`'s thread-local generator
/// (`ThreadRng::fill_bytes`). They are random: nothing is claimed of them.
#[verifier::external_body]
fn random_nonce() -> (nonce: [u8; 12]) {
    let mut nonce = [0u8; 12];
    rand::thread_rng().fill_bytes(&mut nonce);
    nonce
}

/// The text of the error `String::from_utf8` gives for bytes that are not
/// UTF-8 (its `to_string`), which says where the bytes stop being UTF-8.
pub uninterp spec fn utf8_error_text(bytes: Seq<u8>) -> Seq<char>;

/// Reads bytes as UTF-8 with `String::from_utf8`, which fails exactly when the
/// bytes are not valid UTF-8; a failure gives the error's text.
#[verifier::external_body]
fn string_from_utf8(bytes: Vec<u8>) -> (s: Result<String, String>)
    ensures
        s is Ok <==> valid_utf8(bytes@),
        s matches Ok(t) ==> t@ == decode_utf8(bytes@),
        s matches Err(m) ==> m@ == utf8_error_text(bytes@),
{
    match String::from_utf8(bytes) {
        Ok(t) => Ok(t),
        Err(e) => Err(e.to_string()),
    }
}

/// Why sealing or opening a token failed.
#[derive(Clone, Debug, PartialEq, Eq)]
pub enum CryptoError {
    /// The token is too long for AES-GCM.
    EncryptionFailed,
    /// The stored nonce is not twelve bytes long.
    InvalidNonceLength,
    /// The ciphertext does not open under the key and nonce.
    DecryptionFailed,
    /// The opened bytes are not UTF-8; the text says where they stop being.
    InvalidUtf8(String),
}

impl CryptoError {
    /// The error's message.
    pub fn message(&self) -> (m: String)
        ensures
            m@ == crypto_error_message(*self),
    {
        match self {
            CryptoError::EncryptionFailed => String::from_str("Encryption failed"),
            CryptoError::InvalidNonceLength => String::from_str("Invalid nonce length"),
            CryptoError::DecryptionFailed => String::from_str("Decryption failed"),
            CryptoError::InvalidUtf8(text) => text.clone(),
        }
    }
}

/// The message of each crypto error.
pub open spec fn crypto_error_message(e: CryptoError) -> Seq<char> {
    match e {
        CryptoError::EncryptionFailed => "Encryption failed"@,
        CryptoError::InvalidNonceLength => "Invalid nonce length"@,
        CryptoError::DecryptionFailed => "Decryption failed"@,
        CryptoError::InvalidUtf8(text) => text@,
    }
}

/// The token that opening `encrypted` with `key` and `nonce` gives: the nonce
/// must be twelve bytes, the ciphertext must open, and the plaintext must be
/// UTF-8; otherwise there is none.
pub open spec fn opened_token(key: Seq<u8>, encrypted: Seq<u8>, nonce: Seq<u8>) -> Option<Seq<char>> {
    if nonce.len() != NONCE_LEN {
        None
    } else {
        match aes256gcm_open(key, nonce, encrypted) {
            Some(p) => if valid_utf8(p) {
                Some(decode_utf8(p))
            } else {
                None
            },
            None => None,
        }
    }
}

/// The error opening `encrypted` with `key` and `nonce` fails with: a nonce
/// that is not twelve bytes, then a ciphertext that does not open, then a
/// plaintext that is not UTF-8 (with the UTF-8 error's text).
pub open spec fn is_decrypt_error(key: Seq<u8>, encrypted: Seq<u8>, nonce: Seq<u8>, e: CryptoError) -> bool {
    if nonce.len() != NONCE_LEN {
        e == CryptoError::InvalidNonceLength
    } else {
        match aes256gcm_open(key, nonce, encrypted) {
            None => e == CryptoError::DecryptionFailed,
            Some(p) => e matches CryptoError::InvalidUtf8(text) && text@ == utf8_error_text(p),
        }
    }
}

/// Seals `token` under `key` with a fresh random nonce and returns the sealed
/// bytes and the nonce. It fails only for a token longer than AES-GCM allows.
pub fn encrypt_token(key: &[u8; 32], token: &str) -> (res: Result<(Vec<u8>, Vec<u8>), CryptoError>)
    ensures
        res is Ok <==> encode_utf8(token@).len() <= AES_GCM_MAX_PLAINTEXT,
        res matches Ok((ct, nonce)) ==> nonce@.len() == NONCE_LEN
            && ct@ == aes256gcm_seal(key@, nonce@, encode_utf8(token@))
            && ct@.len() == encode_utf8(token@).len() + TAG_LEN,
        res matches Err(e) ==> e == CryptoError::EncryptionFailed,
{
    let nonce_bytes = random_nonce();
    let nonce = slice_to_vec(nonce_bytes.as_slice());
    match aes256gcm_encrypt(key, nonce.as_slice(), token.as_bytes()) {
        Some(ct) => Ok((ct, nonce)),
        None => Err(CryptoError::EncryptionFailed),
    }
}

/// Opens a token sealed by [`encrypt_token`].
///
/// Whatever `encrypt_token` sealed under a key opens under that key and the
/// nonce it returned, and gives back the token it sealed.
pub fn decrypt_token(key: &[u8; 32], encrypted: &[u8], nonce: &[u8]) -> (res: Result<String, CryptoError>)
    ensures
        match opened_token(key@, encrypted@, nonce@) {
            Some(t) => res matches Ok(s) && s@ == t,
            None => res matches Err(e) && is_decrypt_error(key@, encrypted@, nonce@, e),
        },
        forall|token: Seq<char>|
            nonce@.len() == NONCE_LEN
                && encode_utf8(token).len() <= AES_GCM_MAX_PLAINTEXT
                && #[trigger] aes256gcm_seal(key@, nonce@, encode_utf8(token)) == encrypted@
                ==> (res matches Ok(s) && s@ == token),
{
    proof {
        broadcast use encode_utf8_valid_utf8, encode_utf8_decode_utf8;
    }
    if nonce.len() != NONCE_LEN {
        return Err(CryptoError::InvalidNonceLength);
    }
    match aes256gcm_decrypt(key, nonce, encrypted) {
        None => Err(CryptoError::DecryptionFailed),
        Some(plain) => match string_from_utf8(plain) {
            Ok(s) => Ok(s),
            Err(text) => Err(CryptoError::InvalidUtf8(text)),
        },
    }
}

} // verus!
