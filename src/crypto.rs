//! Key derivation and authenticated encryption of secrets.
//!
//! The key is a single SHA-256 pass over the passphrase's UTF-8 bytes; the
//! cipher is AES-256-GCM with a fresh random 96-bit nonce for every seal and
//! the 128-bit tag appended to the cipher text.

use aes_gcm::aead::{Aead, AeadCore, KeyInit, OsRng};
use aes_gcm::Aes256Gcm;
use sha2::Digest;
use vstd::prelude::*;
use vstd::utf8::encode_utf8;

verus! {

/// Length in bytes of a derived key.
pub const KEY_LEN: usize = 32;

/// Length in bytes of a nonce.
pub const NONCE_LEN: usize = 12;

/// Length in bytes of the authentication tag that follows the cipher text.
pub const TAG_LEN: usize = 16;

/// Longest plain text, in bytes, that AES-GCM accepts (2^36).
pub const MAX_PLAIN_TEXT_LEN: u64 = 68719476736;

/// What `sha2::Sha256::digest` returns for the given bytes.
pub uninterp spec fn sha256_of(data: Seq<u8>) -> Seq<u8>;

/// What AES-256-GCM's encryption returns for a key, a nonce and a plain text,
/// with no associated data: the cipher text followed by the tag.
pub uninterp spec fn aes256gcm_seal(key: Seq<u8>, nonce: Seq<u8>, plain: Seq<u8>) -> Seq<u8>;

/// What AES-256-GCM's decryption returns for a key, a nonce and a sealed text,
/// with no associated data: the plain text where the tag verifies, else `None`.
pub uninterp spec fn aes256gcm_open(key: Seq<u8>, nonce: Seq<u8>, sealed: Seq<u8>) -> Option<Seq<u8>>;

#[verifier::external_type_specification]
#[verifier::external_body]
pub struct ExAeadError(aes_gcm::Error);

/// A nonce and the sealed text produced under it.
pub struct EncryptData {
    pub nonce: Vec<u8>,
    pub encrypted_text: Vec<u8>,
}

/// Why sealing or opening a secret failed.
#[derive(Debug, Clone, Copy, PartialEq, Eq, Structural)]
pub enum CipherError {
    /// The cipher refused to seal the plain text (it is over the size limit).
    EncryptionFailed,
    /// The tag did not verify: wrong passphrase or altered data.
    AuthenticationFailed,
    /// The nonce does not have exactly `NONCE_LEN` bytes.
    InvalidNonceLength,
}

/// The key derived from a passphrase: SHA-256 of its UTF-8 encoding.
pub open spec fn derived_key(passphrase: Seq<char>) -> Seq<u8> {
    sha256_of(encode_utf8(passphrase))
}

/// The result of opening `sealed` under `nonce` with the key derived from
/// `passphrase`.
pub open spec fn decrypt_spec(nonce: Seq<u8>, sealed: Seq<u8>, passphrase: Seq<char>) -> Result<Seq<u8>, CipherError> {
    if nonce.len() != NONCE_LEN {
        Err(CipherError::InvalidNonceLength)
    } else {
        match aes256gcm_open(derived_key(passphrase), nonce, sealed) {
            Some(plain) => Ok(plain),
            None => Err(CipherError::AuthenticationFailed),
        }
    }
}

/// The bytes of an `Ok`, the error of an `Err`.
pub open spec fn bytes_result(r: Result<Vec<u8>, CipherError>) -> Result<Seq<u8>, CipherError> {
    match r {
        Ok(v) => Ok(v@),
        Err(e) => Err(e),
    }
}

/// Relies on `sha2::Sha256::digest`: a 32-byte digest that depends on the
/// input bytes alone.
#[verifier::external_body]
fn sha256(data: &[u8]) -> (r: Vec<u8>)
    ensures
        r@ == sha256_of(data@),
        r@.len() == KEY_LEN,
{
    sha2::Sha256::digest(data).to_vec()
}

/// Relies on `AeadCore::generate_nonce` of `Aes256Gcm` fed by `OsRng`: twelve
/// bytes drawn from the operating system's secure random source.
#[verifier::external_body]
fn fresh_nonce() -> (r: Vec<u8>)
    ensures
        r@.len() == NONCE_LEN,
{
    Aes256Gcm::generate_nonce(&mut OsRng).to_vec()
}

/// Relies on `Aead::encrypt` of `Aes256Gcm` with no associated data: it fails
/// only on a plain text longer than `P_MAX` bytes; otherwise it returns the
/// cipher text with the 16-byte tag appended, which `Aead::decrypt` under the
/// same key and nonce opens to the plain text again.
#[verifier::external_body]
fn aes256gcm_encrypt(key: &[u8], nonce: &[u8], plain: &[u8]) -> (r: Result<Vec<u8>, aes_gcm::Error>)
    requires
        key@.len() == KEY_LEN,
        nonce@.len() == NONCE_LEN,
    ensures
        r is Ok <==> plain@.len() <= MAX_PLAIN_TEXT_LEN,
        r matches Ok(c) ==> c@ == aes256gcm_seal(key@, nonce@, plain@),
        r matches Ok(c) ==> c@.len() == plain@.len() + TAG_LEN,
        r matches Ok(c) ==> aes256gcm_open(key@, nonce@, c@) == Some(plain@),
{
    let cipher = Aes256Gcm::new(aes_gcm::Key::<Aes256Gcm>::from_slice(key));
    cipher.encrypt(aes_gcm::Nonce::from_slice(nonce), plain)
}

/// Relies on `Aead::decrypt` of `Aes256Gcm` with no associated data: the plain
/// text comes back only where the trailing tag verifies.
#[verifier::external_body]
fn aes256gcm_decrypt(key: &[u8], nonce: &[u8], sealed: &[u8]) -> (r: Result<Vec<u8>, aes_gcm::Error>)
    requires
        key@.len() == KEY_LEN,
        nonce@.len() == NONCE_LEN,
    ensures
        match r {
            Ok(p) => aes256gcm_open(key@, nonce@, sealed@) == Some(p@),
            Err(_) => aes256gcm_open(key@, nonce@, sealed@) is None,
        },
{
    let cipher = Aes256Gcm::new(aes_gcm::Key::<Aes256Gcm>::from_slice(key));
    cipher.decrypt(aes_gcm::Nonce::from_slice(nonce), sealed)
}

/// Derives the symmetric key from a passphrase.
pub fn derive_key(passphrase: &str) -> (r: Vec<u8>)
    ensures
        r@ == derived_key(passphrase@),
        r@.len() == KEY_LEN,
{
    sha256(passphrase.as_bytes())
}

/// Seals a plain text under the key derived from `key`, with the nonce given.
/// Fails with `InvalidNonceLength` where the nonce is not `NONCE_LEN` bytes
/// long, and with `EncryptionFailed` where the plain text is over the limit.
pub fn encrypt_with_nonce(plain_text: &str, key: &str, nonce: Vec<u8>) -> (r: Result<EncryptData, CipherError>)
    ensures
        match r {
            Ok(d) => {
                &&& nonce@.len() == NONCE_LEN
                &&& encode_utf8(plain_text@).len() <= MAX_PLAIN_TEXT_LEN
                &&& d.nonce@ == nonce@
                &&& d.encrypted_text@ == aes256gcm_seal(derived_key(key@), nonce@, encode_utf8(plain_text@))
                &&& d.encrypted_text@.len() == encode_utf8(plain_text@).len() + TAG_LEN
                &&& decrypt_spec(d.nonce@, d.encrypted_text@, key@) == Ok::<Seq<u8>, CipherError>(encode_utf8(plain_text@))
            },
            Err(e) => if nonce@.len() != NONCE_LEN {
                e == CipherError::InvalidNonceLength
            } else {
                e == CipherError::EncryptionFailed && encode_utf8(plain_text@).len() > MAX_PLAIN_TEXT_LEN
            },
        },
{
    if nonce.len() != NONCE_LEN {
        return Err(CipherError::InvalidNonceLength);
    }
    let derived = derive_key(key);
    match aes256gcm_encrypt(derived.as_slice(), nonce.as_slice(), plain_text.as_bytes()) {
        Ok(sealed) => Ok(EncryptData { nonce, encrypted_text: sealed }),
        Err(_) => Err(CipherError::EncryptionFailed),
    }
}

/// Seals a plain text under the key derived from `key`, with a fresh random
/// nonce. Fails, with `EncryptionFailed`, only where the plain text is over
/// the limit.
pub fn encrypt(plain_text: &str, key: &str) -> (r: Result<EncryptData, CipherError>)
    ensures
        r is Ok <==> encode_utf8(plain_text@).len() <= MAX_PLAIN_TEXT_LEN,
        match r {
            Ok(d) => {
                &&& d.nonce@.len() == NONCE_LEN
                &&& d.encrypted_text@ == aes256gcm_seal(derived_key(key@), d.nonce@, encode_utf8(plain_text@))
                &&& d.encrypted_text@.len() == encode_utf8(plain_text@).len() + TAG_LEN
                &&& decrypt_spec(d.nonce@, d.encrypted_text@, key@) == Ok::<Seq<u8>, CipherError>(encode_utf8(plain_text@))
            },
            Err(e) => e == CipherError::EncryptionFailed,
        },
{
    encrypt_with_nonce(plain_text, key, fresh_nonce())
}

/// Opens a sealed text with the key derived from `key`. A wrong passphrase and
/// altered data fail alike, with `AuthenticationFailed`.
pub fn decrypt(data: &EncryptData, key: &str) -> (r: Result<Vec<u8>, CipherError>)
    ensures
        bytes_result(r) == decrypt_spec(data.nonce@, data.encrypted_text@, key@),
{
    if data.nonce.len() != NONCE_LEN {
        return Err(CipherError::InvalidNonceLength);
    }
    let derived = derive_key(key);
    match aes256gcm_decrypt(derived.as_slice(), data.nonce.as_slice(), data.encrypted_text.as_slice()) {
        Ok(plain) => Ok(plain),
        Err(_) => Err(CipherError::AuthenticationFailed),
    }
}

} // verus!
