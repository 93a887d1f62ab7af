//! Encryption of caller-supplied text under a caller-supplied key with
//! AES-256-GCM. Keys and sealed data travel as standard base64; sealed data
//! is the 12-byte nonce followed by the ciphertext.

use crate::errors::AppError;
use aes_gcm::aead::{Aead, KeyInit, OsRng};
use aes_gcm::{Aes256Gcm, Key, Nonce};
use base64::engine::general_purpose;
use base64::Engine;
use rand::RngCore;
use vstd::prelude::*;
use vstd::string::*;

verus! {

/// The length of a key, in bytes.
pub const KEY_LEN: usize = 32;

/// The length of a nonce, in bytes.
pub const NONCE_LEN: usize = 12;

/// The bytes that `text` holds in standard base64, or `None` where it is
/// not valid standard base64.
pub uninterp spec fn base64_decoded(text: Seq<char>) -> Option<Seq<u8>>;

/// The standard base64 text of `bytes`.
pub uninterp spec fn base64_encoded(bytes: Seq<u8>) -> Seq<char>;

/// The ciphertext, tag included, of `plaintext` under `key` and `nonce`, or
/// `None` where the cipher refuses it.
pub uninterp spec fn aes_gcm_sealed(key: Seq<u8>, nonce: Seq<u8>, plaintext: Seq<u8>) -> Option<Seq<u8>>;

/// The plaintext of `ciphertext` under `key` and `nonce`, or `None` where
/// it does not authenticate.
pub uninterp spec fn aes_gcm_opened(key: Seq<u8>, nonce: Seq<u8>, ciphertext: Seq<u8>) -> Option<Seq<u8>>;

/// The text that `bytes` hold as UTF-8, or `None` where they are not UTF-8.
pub uninterp spec fn utf8_decoded(bytes: Seq<u8>) -> Option<Seq<char>>;

/// Relies on base64's `general_purpose::STANDARD.decode`: the bytes of a
/// standard base64 text, or its decode error as text.
#[verifier::external_body]
fn decode_base64(text: &str) -> (r: Result<Vec<u8>, String>)
    ensures
        match r {
            Ok(v) => base64_decoded(text@) == Some(v@),
            Err(_) => base64_decoded(text@).is_none(),
        },
{
    match general_purpose::STANDARD.decode(text.as_bytes()) {
        Ok(v) => Ok(v),
        Err(e) => Err(e.to_string()),
    }
}

/// Relies on base64's `general_purpose::STANDARD.encode`: the standard
/// base64 text of some bytes.
#[verifier::external_body]
fn encode_base64(bytes: &[u8]) -> (r: String)
    ensures
        r@ == base64_encoded(bytes@),
{
    general_purpose::STANDARD.encode(bytes)
}

/// Relies on aes_gcm's `Aes256Gcm::encrypt` (the cipher made by `KeyInit::new`
/// from the key): the ciphertext of some bytes, or the cipher's error as text.
/// `Nonce::from_slice` panics unless the nonce is 12 bytes long.
#[verifier::external_body]
fn seal(key: &[u8], nonce: &[u8], plaintext: &[u8]) -> (r: Result<Vec<u8>, String>)
    requires
        key@.len() == KEY_LEN,
        nonce@.len() == NONCE_LEN,
    ensures
        match r {
            Ok(v) => aes_gcm_sealed(key@, nonce@, plaintext@) == Some(v@),
            Err(_) => aes_gcm_sealed(key@, nonce@, plaintext@).is_none(),
        },
{
    let cipher = Aes256Gcm::new(Key::<Aes256Gcm>::from_slice(key));
    match cipher.encrypt(Nonce::from_slice(nonce), plaintext) {
        Ok(v) => Ok(v),
        Err(e) => Err(e.to_string()),
    }
}

/// Relies on aes_gcm's `Aes256Gcm::decrypt` (the cipher made by `KeyInit::new`
/// from the key): the plaintext of some bytes, or the cipher's error as text.
/// `Nonce::from_slice` panics unless the nonce is 12 bytes long.
#[verifier::external_body]
fn open(key: &[u8], nonce: &[u8], ciphertext: &[u8]) -> (r: Result<Vec<u8>, String>)
    requires
        key@.len() == KEY_LEN,
        nonce@.len() == NONCE_LEN,
    ensures
        match r {
            Ok(v) => aes_gcm_opened(key@, nonce@, ciphertext@) == Some(v@),
            Err(_) => aes_gcm_opened(key@, nonce@, ciphertext@).is_none(),
        },
{
    let cipher = Aes256Gcm::new(Key::<Aes256Gcm>::from_slice(key));
    match cipher.decrypt(Nonce::from_slice(nonce), ciphertext) {
        Ok(v) => Ok(v),
        Err(e) => Err(e.to_string()),
    }
}

/// Relies on `RngCore::fill_bytes` of the operating system's generator
/// (`OsRng`): a fresh random nonce. Only its length is known.
#[verifier::external_body]
fn random_nonce() -> (r: Vec<u8>)
    ensures
        r@.len() == NONCE_LEN,
{
    let mut nonce = [0u8; 12];
    OsRng.fill_bytes(&mut nonce);
    nonce.to_vec()
}

/// Relies on std's `String::from_utf8`: the text that some bytes hold as
/// UTF-8, or the conversion error as text.
#[verifier::external_body]
fn utf8_text(bytes: Vec<u8>) -> (r: Result<String, String>)
    ensures
        match r {
            Ok(s) => utf8_decoded(bytes@) == Some(s@),
            Err(_) => utf8_decoded(bytes@).is_none(),
        },
{
    match String::from_utf8(bytes) {
        Ok(s) => Ok(s),
        Err(e) => Err(e.to_string()),
    }
}

/// The key that the base64 text `key` holds, where it holds one of the
/// right length.
pub open spec fn key_of(key: Seq<char>) -> Option<Seq<u8>> {
    match base64_decoded(key) {
        Some(k) => if k.len() == KEY_LEN { Some(k) } else { None },
        None => None,
    }
}

fn decode_key(key: &str) -> (r: Result<Vec<u8>, AppError>)
    ensures
        match r {
            Ok(k) => key_of(key@) == Some(k@),
            Err(e) => key_of(key@).is_none() && e is InvalidInput,
        },
{
    match decode_base64(key) {
        Ok(k) => {
            if k.len() != KEY_LEN {
                Err(AppError::InvalidInput(String::from_str("Key must be 32 bytes (256 bits)")))
            } else {
                Ok(k)
            }
        },
        Err(e) => Err(AppError::InvalidInput(String::from_str("Failed to decode key: ").concat(e.as_str()))),
    }
}

/// Seals the UTF-8 bytes of `data` under the base64 key `key` with the given
/// nonce and returns the base64 text of the nonce followed by the
/// ciphertext. `InvalidInput` where the key is not base64 or not 32 bytes
/// long; `Encryption` where the cipher refuses the data.
pub fn encrypt_with_nonce(data: &str, key: &str, nonce: &Vec<u8>) -> (r: Result<String, AppError>)
    requires
        nonce@.len() == NONCE_LEN,
    ensures
        match key_of(key@) {
            None => r matches Err(AppError::InvalidInput(_)),
            Some(k) => match aes_gcm_sealed(k, nonce@, data.spec_bytes()) {
                None => r matches Err(AppError::Encryption(_)),
                Some(c) => r matches Ok(s) && s@ == base64_encoded(nonce@ + c),
            },
        },
{
    let key_bytes = match decode_key(key) {
        Ok(k) => k,
        Err(e) => return Err(e),
    };
    match seal(key_bytes.as_slice(), nonce.as_slice(), data.as_bytes()) {
        Ok(c) => {
            let mut sealed = nonce.clone();
            assert(sealed@ =~= nonce@);
            let mut c = c;
            sealed.append(&mut c);
            Ok(encode_base64(sealed.as_slice()))
        },
        Err(e) => Err(AppError::Encryption(String::from_str("Encryption failed: ").concat(e.as_str()))),
    }
}

/// Seals `data` under `key` with a fresh random nonce, as
/// `encrypt_with_nonce` does; the outcome is that of some 12-byte nonce.
pub fn encrypt_data(data: &str, key: &str) -> (r: Result<String, AppError>)
    ensures
        key_of(key@).is_none() ==> r matches Err(AppError::InvalidInput(_)),
        exists|nonce: Seq<u8>| #![trigger nonce.len()] nonce.len() == NONCE_LEN && match key_of(key@) {
            None => true,
            Some(k) => match aes_gcm_sealed(k, nonce, data.spec_bytes()) {
                None => r matches Err(AppError::Encryption(_)),
                Some(c) => r matches Ok(s) && s@ == base64_encoded(nonce + c),
            },
        },
{
    let nonce = random_nonce();
    let r = encrypt_with_nonce(data, key, &nonce);
    assert(nonce@.len() == NONCE_LEN);
    r
}

/// Opens the base64 text `encrypted` (a 12-byte nonce, then the
/// ciphertext) under the base64 key `key` and returns the plaintext as text.
/// `InvalidInput` where `encrypted` is not base64 or shorter than a nonce,
/// or where the key is not base64 or not 32 bytes long; `Encryption` where
/// the ciphertext does not authenticate; `Serialization` where the
/// plaintext is not UTF-8.
pub fn decrypt_data(encrypted: &str, key: &str) -> (r: Result<String, AppError>)
    ensures
        match base64_decoded(encrypted@) {
            None => r matches Err(AppError::InvalidInput(_)),
            Some(b) => if b.len() < NONCE_LEN {
                r matches Err(AppError::InvalidInput(_))
            } else {
                match key_of(key@) {
                    None => r matches Err(AppError::InvalidInput(_)),
                    Some(k) => match aes_gcm_opened(k, b.subrange(0, NONCE_LEN as int), b.subrange(NONCE_LEN as int, b.len() as int)) {
                        None => r matches Err(AppError::Encryption(_)),
                        Some(p) => match utf8_decoded(p) {
                            None => r matches Err(AppError::Serialization(_)),
                            Some(t) => r matches Ok(s) && s@ == t,
                        },
                    },
                }
            },
        },
{
    let bytes = match decode_base64(encrypted) {
        Ok(b) => b,
        Err(e) => {
            return Err(AppError::InvalidInput(String::from_str("Failed to decode encrypted data: ").concat(e.as_str())));
        },
    };
    if bytes.len() < NONCE_LEN {
        return Err(AppError::InvalidInput(String::from_str("Invalid encrypted data")));
    }
    let key_bytes = match decode_key(key) {
        Ok(k) => k,
        Err(e) => return Err(e),
    };
    let (nonce, ciphertext) = bytes.as_slice().split_at(NONCE_LEN);
    let plaintext = match open(key_bytes.as_slice(), nonce, ciphertext) {
        Ok(p) => p,
        Err(e) => return Err(AppError::Encryption(String::from_str("Decryption failed: ").concat(e.as_str()))),
    };
    match utf8_text(plaintext) {
        Ok(s) => Ok(s),
        Err(e) => Err(AppError::Serialization(
            String::from_str("Failed to convert decrypted data to string: ").concat(e.as_str()),
        )),
    }
}

} // verus!
