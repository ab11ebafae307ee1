//! AES-256-GCM, as the library sees it.
//!
//! The cipher itself is not part of the verified code. Its results are
//! given names here, and the few facts the library relies on are stated on
//! the two functions that call it.

use vstd::prelude::*;
use aes_gcm::aead::{Aead, KeyInit};
use aes_gcm::{Aes256Gcm, Key, Nonce};

verus! {

/// The length of an AES-256 key.
pub const KEY_LEN: usize = 32;

/// The length of the nonce.
pub const NONCE_LEN: usize = 12;

/// The length of the authentication tag that ends every ciphertext.
pub const TAG_LEN: usize = 16;

/// The longest plaintext the cipher seals, in bytes.
pub const MAX_PLAINTEXT_LEN: u64 = 0x10_0000_0000;

/// The ciphertext, tag included, of `plaintext` sealed under `key` and
/// `nonce` with no associated data.
pub uninterp spec fn aes256_gcm_sealed(
    key: Seq<u8>,
    nonce: Seq<u8>,
    plaintext: Seq<u8>,
) -> Seq<u8>;

/// The plaintext that `ciphertext` opens to under `key` and `nonce` with no
/// associated data, or `None` where the cipher rejects it.
pub uninterp spec fn aes256_gcm_opened(
    key: Seq<u8>,
    nonce: Seq<u8>,
    ciphertext: Seq<u8>,
) -> Option<Seq<u8>>;

/// The text of the error with which the cipher reports every failure.
pub open spec fn refusal_text() -> Seq<char> {
    "aead::Error"@
}

/// `Aes256Gcm::encrypt` on a key made by `Aes256Gcm::new`.
///
/// Claimed of it: it fails exactly when the plaintext is longer than
/// `MAX_PLAINTEXT_LEN`, and then the error displays as `aead::Error`;
/// otherwise the ciphertext is the plaintext's length plus the tag, is a
/// function of key, nonce and plaintext alone, and opens under the same key
/// and nonce to the plaintext it was made from. Like every function that
/// returns a vector, it needs the memory for one.
#[verifier::external_body]
pub(crate) fn seal(
    key: &[u8; 32],
    nonce: &[u8; 12],
    plaintext: &[u8],
) -> (r: Result<Vec<u8>, String>)
    ensures
        r is Ok <==> plaintext@.len() <= MAX_PLAINTEXT_LEN,
        r matches Ok(ciphertext) ==> {
            &&& ciphertext@ == aes256_gcm_sealed(key@, nonce@, plaintext@)
            &&& ciphertext@.len() == plaintext@.len() + TAG_LEN
            &&& aes256_gcm_opened(key@, nonce@, ciphertext@) == Some(plaintext@)
        },
        r matches Err(text) ==> text@ == refusal_text(),
{
    let cipher = Aes256Gcm::new(Key::<Aes256Gcm>::from_slice(key));
    match cipher.encrypt(Nonce::from_slice(nonce), plaintext) {
        Ok(ciphertext) => Ok(ciphertext),
        Err(e) => Err(e.to_string()),
    }
}

/// `Aes256Gcm::decrypt` on a key made by `Aes256Gcm::new`.
///
/// Claimed of it: the outcome is a function of key, nonce and ciphertext
/// alone; a plaintext that comes out is the ciphertext's length less the
/// tag; a rejection displays as `aead::Error`.
#[verifier::external_body]
pub(crate) fn open(
    key: &[u8; 32],
    nonce: &[u8; 12],
    ciphertext: &[u8],
) -> (r: Result<Vec<u8>, String>)
    ensures
        match r {
            Ok(plaintext) => {
                &&& aes256_gcm_opened(key@, nonce@, ciphertext@) == Some(plaintext@)
                &&& plaintext@.len() + TAG_LEN == ciphertext@.len()
            },
            Err(text) => {
                &&& aes256_gcm_opened(key@, nonce@, ciphertext@) is None
                &&& text@ == refusal_text()
            },
        },
{
    let cipher = Aes256Gcm::new(Key::<Aes256Gcm>::from_slice(key));
    match cipher.decrypt(Nonce::from_slice(nonce), ciphertext) {
        Ok(plaintext) => Ok(plaintext),
        Err(e) => Err(e.to_string()),
    }
}

} // verus!
