//! The authenticated-encryption boundary.
//!
//! A finished archive may be sealed as a whole: a 32-byte key is derived
//! from the caller's passphrase, and the file's bytes are replaced by the
//! authenticated ciphertext. Opening reverses this and fails — rather than
//! returning corrupted bytes — when the data is not an authentic seal under
//! the derived key. Key derivation and the cipher are delegated to the
//! `hkdf`/`sha2` and `aes-gcm` crates behind trusted wrappers; with the
//! fixed nonce the pipeline uses, both directions are functions of their
//! byte arguments alone, named `sealed` and `opened` below.

use vstd::prelude::*;
use crate::errors::CryptoError;
use aes_gcm::KeyInit;
use aes_gcm::aead::Aead;

verus! {

/// The 32-byte key that key derivation produces from a passphrase.
pub uninterp spec fn derived_key(pass: Seq<u8>) -> Seq<u8>;

/// The ciphertext that sealing produces for the given data under the given
/// 32-byte key.
pub uninterp spec fn sealed(data: Seq<u8>, key: Seq<u8>) -> Seq<u8>;

/// What opening recovers from the given bytes under the given 32-byte key:
/// the plaintext if the bytes are an authentic seal under that key, nothing
/// otherwise.
pub uninterp spec fn opened(data: Seq<u8>, key: Seq<u8>) -> Option<Seq<u8>>;

/// Relies on `hkdf::Hkdf::<sha2::Sha256>::expand`: filling a 32-byte output
/// block is a valid request for HKDF-SHA-256 and depends on the input key
/// material alone (no salt, empty info).
#[verifier::external_body]
fn derive_key(pass: &Vec<u8>) -> (r: Vec<u8>)
    ensures
        r@ == derived_key(pass@),
        r@.len() == 32,
{
    let hk = hkdf::Hkdf::<sha2::Sha256>::new(None, pass.as_slice());
    let mut okm = [0u8; 32];
    let _ = hk.expand(&[], &mut okm);
    okm.to_vec()
}

/// Relies on `aes_gcm::Aes256Gcm::encrypt` (through `aead::Aead`) with the
/// pipeline's fixed nonce: the ciphertext is a function of plaintext and
/// key alone, and decrypting it under the same key and nonce gives the
/// plaintext back. The cipher accepts a 32-byte key unconditionally and
/// refuses only a plaintext above the AES-GCM length cap of 2^36 - 32
/// bytes, so sealing anything within the cap succeeds.
#[verifier::external_body]
fn aead_seal(data: &Vec<u8>, key: &Vec<u8>) -> (r: Option<Vec<u8>>)
    requires
        key@.len() == 32,
    ensures
        data@.len() <= 0xF_FFFF_FFE0 ==> r is Some,
        r is Some ==> r->0@ == sealed(data@, key@),
        r is Some ==> opened(sealed(data@, key@), key@) == Some(data@),
{
    let cipher = match aes_gcm::Aes256Gcm::new_from_slice(key.as_slice()) {
        Ok(c) => c,
        Err(_) => return None,
    };
    let nonce = aes_gcm::Nonce::from(*b"unique nonce");
    cipher.encrypt(&nonce, data.as_slice()).ok()
}

/// Relies on `aes_gcm::Aes256Gcm::decrypt` (through `aead::Aead`) with the
/// pipeline's fixed nonce: decryption recovers the plaintext when the bytes
/// are an authentic seal under the key, and fails otherwise; the outcome is
/// a function of ciphertext and key alone.
#[verifier::external_body]
fn aead_open(data: &Vec<u8>, key: &Vec<u8>) -> (r: Option<Vec<u8>>)
    requires
        key@.len() == 32,
    ensures
        match r {
            Some(p) => opened(data@, key@) == Some(p@),
            None => opened(data@, key@) is None,
        },
{
    let cipher = match aes_gcm::Aes256Gcm::new_from_slice(key.as_slice()) {
        Ok(c) => c,
        Err(_) => return None,
    };
    let nonce = aes_gcm::Nonce::from(*b"unique nonce");
    cipher.decrypt(&nonce, data.as_slice()).ok()
}

/// Seals whole-archive bytes under a key derived from the passphrase.
///
/// Succeeds on every input within the cipher's length cap; the result is
/// then the authenticated ciphertext, and opening it with the same
/// passphrase gives the original bytes back exactly.
pub fn encrypt_payload(data: &Vec<u8>, pass: &Vec<u8>) -> (r: Result<Vec<u8>, CryptoError>)
    ensures
        data@.len() <= 0xF_FFFF_FFE0 ==> r is Ok,
        r is Ok ==> r->Ok_0@ == sealed(data@, derived_key(pass@)) && opened(
            r->Ok_0@,
            derived_key(pass@),
        ) == Some(data@),
        r is Err ==> r->Err_0 == CryptoError::Encryption,
{
    let key = derive_key(pass);
    match aead_seal(data, &key) {
        Some(c) => Ok(c),
        None => Err(CryptoError::Encryption),
    }
}

/// Opens whole-archive bytes under a key derived from the passphrase.
///
/// Succeeds exactly when the bytes are an authentic seal under that key;
/// a wrong passphrase or tampered data yields `Decryption`, never silently
/// corrupted bytes.
pub fn decrypt_payload(data: &Vec<u8>, pass: &Vec<u8>) -> (r: Result<Vec<u8>, CryptoError>)
    ensures
        match r {
            Ok(p) => opened(data@, derived_key(pass@)) == Some(p@),
            Err(e) => opened(data@, derived_key(pass@)) is None && e == CryptoError::Decryption,
        },
{
    let key = derive_key(pass);
    match aead_open(data, &key) {
        Some(p) => Ok(p),
        None => Err(CryptoError::Decryption),
    }
}

} // verus!
