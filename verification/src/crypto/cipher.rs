//! The cipher and the entropy source, as far as the rest of the library relies
//! on them.
//!
//! AES-256 in Galois/Counter Mode and the operating system's random number
//! generator come from the `aes-gcm` crate. Nothing in this file is proved:
//! each function states what its callers may assume of the call it makes.

use aes_gcm::aead::rand_core::RngCore;
use aes_gcm::aead::{Aead, KeyInit, OsRng};
use aes_gcm::{Aes256Gcm, Key, Nonce};
use vstd::prelude::*;

verus! {

/// Bytes in a key.
pub const KEY_LEN: usize = 32;

/// Bytes in a nonce.
pub const NONCE_LEN: usize = 12;

/// Bytes in an authentication tag.
pub const TAG_LEN: usize = 16;

/// The longest plaintext that the cipher encrypts, in bytes.
pub const MAX_PLAINTEXT_LEN: u64 = 0x10_0000_0000;

/// The longest ciphertext, without its tag, that the cipher decrypts, in bytes.
pub const MAX_CIPHERTEXT_LEN: u64 = 0x10_0000_0010;

/// The error of the cipher, which tells nothing of its cause.
#[verifier::external_type_specification]
#[verifier::external_body]
pub struct ExCipherError(aes_gcm::Error);

/// The error of the entropy source.
#[verifier::external_type_specification]
#[verifier::external_body]
pub struct ExEntropyError(aes_gcm::aead::rand_core::Error);

/// What AES-256-GCM makes of `plaintext` under `key` and `nonce`, with no
/// associated data: the ciphertext followed by the tag, or `None` where the
/// cipher refuses the input.
pub uninterp spec fn aes256_gcm_encrypt(key: Seq<u8>, nonce: Seq<u8>, plaintext: Seq<u8>) -> Option<Seq<u8>>;

/// What AES-256-GCM recovers from `sealed`, a ciphertext followed by its tag,
/// under `key` and `nonce`, with no associated data: the plaintext, or `None`
/// where the cipher refuses the input.
pub uninterp spec fn aes256_gcm_decrypt(key: Seq<u8>, nonce: Seq<u8>, sealed: Seq<u8>) -> Option<Seq<u8>>;

/// Whether a plaintext of `len` bytes can be handed to the cipher: it is within
/// the cipher's limit, and the tag still fits in one buffer with it.
pub open spec fn encryptable_len(len: int) -> bool {
    len <= MAX_PLAINTEXT_LEN && len + TAG_LEN <= isize::MAX
}

/// Asks the operating system for `len` random bytes, by `OsRng::try_fill_bytes`
/// on a zeroed buffer of that length. Assumed: on success the buffer comes
/// back with its length unchanged. Nothing is assumed of the bytes, nor of
/// when the source fails.
#[verifier::external_body]
pub(crate) fn os_random_bytes(len: usize) -> (r: Result<Vec<u8>, aes_gcm::aead::rand_core::Error>)
    requires
        len <= isize::MAX,
    ensures
        r matches Ok(bytes) ==> bytes@.len() == len,
{
    let mut bytes: Vec<u8> = Vec::new();
    bytes.resize(len, 0u8);
    match OsRng.try_fill_bytes(&mut bytes) {
        Ok(()) => Ok(bytes),
        Err(e) => Err(e),
    }
}

/// Encrypts by `Aes256Gcm::new` and `Aead::encrypt`. Assumed: whether the call
/// succeeds, and what it returns, is a function of the three arguments alone;
/// what it returns is 16 bytes longer than the plaintext; and `Aead::decrypt`
/// under the same key and nonce recovers the plaintext from it.
#[verifier::external_body]
pub(crate) fn aead_encrypt(key: &[u8], nonce: &[u8], plaintext: &[u8]) -> (r: Result<Vec<u8>, aes_gcm::Error>)
    requires
        key@.len() == KEY_LEN,
        nonce@.len() == NONCE_LEN,
        encryptable_len(plaintext@.len() as int),
    ensures
        match r {
            Ok(sealed) => {
                &&& aes256_gcm_encrypt(key@, nonce@, plaintext@) == Some(sealed@)
                &&& sealed@.len() == plaintext@.len() + TAG_LEN
                &&& aes256_gcm_decrypt(key@, nonce@, sealed@) == Some(plaintext@)
            },
            Err(_) => aes256_gcm_encrypt(key@, nonce@, plaintext@) is None,
        },
{
    Aes256Gcm::new(Key::<Aes256Gcm>::from_slice(key)).encrypt(Nonce::from_slice(nonce), plaintext)
}

/// Decrypts by `Aes256Gcm::new` and `Aead::decrypt`. Assumed: whether the call
/// succeeds, and what it returns, is a function of the three arguments alone;
/// a recovered plaintext is 16 bytes shorter than the input.
#[verifier::external_body]
pub(crate) fn aead_decrypt(key: &[u8], nonce: &[u8], sealed: &[u8]) -> (r: Result<Vec<u8>, aes_gcm::Error>)
    requires
        key@.len() == KEY_LEN,
        nonce@.len() == NONCE_LEN,
    ensures
        match r {
            Ok(plaintext) => {
                &&& aes256_gcm_decrypt(key@, nonce@, sealed@) == Some(plaintext@)
                &&& plaintext@.len() + TAG_LEN == sealed@.len()
            },
            Err(_) => aes256_gcm_decrypt(key@, nonce@, sealed@) is None,
        },
{
    Aes256Gcm::new(Key::<Aes256Gcm>::from_slice(key)).decrypt(Nonce::from_slice(nonce), sealed)
}

} // verus!
