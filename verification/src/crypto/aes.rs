//! Sealing and opening under AES-256-GCM.
//!
//! A key is 32 bytes from the operating system's random number generator.
//! Sealing draws a fresh 12-byte nonce for every call and never takes one from
//! the caller; the blob it returns is the nonce followed by the ciphertext and
//! the 16-byte tag. Opening releases a plaintext only when the tag verifies.

use crate::crypto::blob::{
    blob_body, blob_nonce, blob_of, join_blob, lemma_split_inverts_join, sealed_len, split_blob,
};
use crate::crypto::cipher::{
    aead_decrypt, aead_encrypt, aes256_gcm_decrypt, aes256_gcm_encrypt, encryptable_len,
    os_random_bytes, KEY_LEN, MAX_CIPHERTEXT_LEN, MAX_PLAINTEXT_LEN, NONCE_LEN, TAG_LEN,
};
use crate::crypto::encoding::{
    from_hex, hex_decode, hex_encode, is_hex_text, lemma_hex_round_trip, to_hex, to_hex_upper,
};
use vstd::prelude::*;

verus! {

/// A key: 256 bits.
pub type Key32 = [u8; 32];

/// Returned when no key could be made: the entropy source failed, or it gave
/// a buffer of another size than a key has.
#[derive(Debug, Clone, Copy, PartialEq, Eq, Structural)]
pub struct GenerationError;

/// Returned when a plaintext could not be sealed.
#[derive(Debug, Clone, Copy, PartialEq, Eq, Structural)]
pub struct EncryptionError;

/// Why a blob could not be opened.
#[derive(Debug, Clone, Copy, PartialEq, Eq, Structural)]
pub enum OpenError {
    /// The blob is too short to hold a nonce.
    MalformedInput,
    /// The tag does not verify: the blob was altered, or sealed under another key.
    Authentication,
    /// The cipher refused the input without verifying a tag.
    Decryption,
}

/// Every way in which an operation of this module fails.
#[derive(Debug, Clone, Copy, PartialEq, Eq, Structural)]
pub enum CryptoError {
    /// No key could be made.
    Generation,
    /// A plaintext could not be sealed.
    Encryption,
    /// A blob is too short to hold a nonce.
    MalformedInput,
    /// A tag does not verify.
    Authentication,
    /// The cipher refused an input without verifying a tag.
    Decryption,
    /// A text is not an even number of hexadecimal digits.
    Encoding,
}

impl OpenError {
    /// This error among all the errors of the module.
    pub open spec fn widened(self) -> CryptoError {
        match self {
            OpenError::MalformedInput => CryptoError::MalformedInput,
            OpenError::Authentication => CryptoError::Authentication,
            OpenError::Decryption => CryptoError::Decryption,
        }
    }

    /// Gives this error its place among all the errors of the module.
    pub fn widen(self) -> (e: CryptoError)
        ensures
            e == self.widened(),
    {
        match self {
            OpenError::MalformedInput => CryptoError::MalformedInput,
            OpenError::Authentication => CryptoError::Authentication,
            OpenError::Decryption => CryptoError::Decryption,
        }
    }
}

impl CryptoError {
    /// Whether the caller's data caused this error, rather than the service:
    /// true of all but `Generation` and `Encryption`.
    pub open spec fn blames_input(self) -> bool {
        !(self is Generation || self is Encryption)
    }

    /// Tells whether the caller's data caused this error, rather than the
    /// service.
    pub fn is_input_fault(&self) -> (b: bool)
        ensures
            b == self.blames_input(),
    {
        match self {
            CryptoError::Generation => false,
            CryptoError::Encryption => false,
            _ => true,
        }
    }
}

/// Whether `blob` seals `plaintext` under `key`: it has the sealed length, its
/// body is what the cipher makes of the plaintext under the key and the blob's
/// nonce, and the cipher recovers the plaintext from that body.
pub open spec fn is_sealed(key: Seq<u8>, plaintext: Seq<u8>, blob: Seq<u8>) -> bool {
    &&& blob.len() == sealed_len(plaintext.len() as int)
    &&& aes256_gcm_encrypt(key, blob_nonce(blob), plaintext) == Some(blob_body(blob))
    &&& aes256_gcm_decrypt(key, blob_nonce(blob), blob_body(blob)) == Some(plaintext)
}

/// What opening returns for a body of `body_len` bytes from which the cipher
/// recovered `recovered`. A refusal counts as a failed verification unless the
/// body is shorter than a tag or longer than the cipher reads.
pub open spec fn open_outcome_of(body_len: int, recovered: Option<Seq<u8>>) -> Result<Seq<u8>, OpenError> {
    match recovered {
        Some(plaintext) => Ok(plaintext),
        None => if body_len < TAG_LEN || body_len - TAG_LEN > MAX_CIPHERTEXT_LEN {
            Err(OpenError::Decryption)
        } else {
            Err(OpenError::Authentication)
        },
    }
}

/// What opening `blob` under `key` returns.
pub open spec fn open_of(key: Seq<u8>, blob: Seq<u8>) -> Result<Seq<u8>, OpenError> {
    if blob.len() < NONCE_LEN {
        Err(OpenError::MalformedInput)
    } else {
        open_outcome_of(
            blob.len() - NONCE_LEN,
            aes256_gcm_decrypt(key, blob_nonce(blob), blob_body(blob)),
        )
    }
}

/// Whether the executable result `r` is the result `expected` of the model.
pub open spec fn opens_to(r: Result<Vec<u8>, OpenError>, expected: Result<Seq<u8>, OpenError>) -> bool {
    match r {
        Ok(plaintext) => expected == Ok::<Seq<u8>, OpenError>(plaintext@),
        Err(e) => expected == Err::<Seq<u8>, OpenError>(e),
    }
}

/// Opening a blob under the key it was sealed under gives back the plaintext,
/// whatever the plaintext, the empty one included.
pub proof fn lemma_open_inverts_seal(key: Seq<u8>, plaintext: Seq<u8>, blob: Seq<u8>)
    requires
        is_sealed(key, plaintext, blob),
    ensures
        open_of(key, blob) == Ok::<Seq<u8>, OpenError>(plaintext),
{
}

/// A blob shorter than a nonce is refused as malformed whatever the key, and
/// the cipher has no part in that.
pub proof fn lemma_short_blob_is_malformed(key: Seq<u8>, blob: Seq<u8>)
    requires
        blob.len() < NONCE_LEN,
    ensures
        open_of(key, blob) == Err::<Seq<u8>, OpenError>(OpenError::MalformedInput),
{
}

/// A blob as long as a sealed blob, within the cipher's limit, either opens or
/// fails verification: no change to its bytes that keeps its length makes it
/// malformed or unreadable.
pub proof fn lemma_full_blob_fails_only_verification(key: Seq<u8>, blob: Seq<u8>)
    requires
        NONCE_LEN + TAG_LEN <= blob.len() <= NONCE_LEN + TAG_LEN + MAX_CIPHERTEXT_LEN,
    ensures
        open_of(key, blob) is Ok || open_of(key, blob) == Err::<Seq<u8>, OpenError>(
            OpenError::Authentication,
        ),
{
}

/// The view of bytes that may be missing.
pub open spec fn bytes_view(bytes: Option<Vec<u8>>) -> Option<Seq<u8>> {
    match bytes {
        Some(present) => Some(present@),
        None => None,
    }
}

/// What generating a key returns once the entropy source has answered with
/// `drawn`, its bytes or `None` for its failure: the bytes as a key where they
/// are as many as a key has, and an error otherwise.
pub open spec fn key_of_draw(drawn: Option<Seq<u8>>) -> Result<Seq<u8>, GenerationError> {
    match drawn {
        Some(bytes) => if bytes.len() == KEY_LEN {
            Ok(bytes)
        } else {
            Err(GenerationError)
        },
        None => Err(GenerationError),
    }
}

/// What sealing `plaintext` under `key` returns once the entropy source has
/// answered with `drawn`, the nonce or `None` for its failure: the nonce
/// followed by what the cipher makes of the plaintext under it, and an error
/// where the plaintext is beyond the cipher's limit, no nonce was drawn, or
/// the cipher refuses.
pub open spec fn seal_of_draw(key: Seq<u8>, drawn: Option<Seq<u8>>, plaintext: Seq<u8>) -> Result<
    Seq<u8>,
    EncryptionError,
> {
    if !encryptable_len(plaintext.len() as int) {
        Err(EncryptionError)
    } else {
        match drawn {
            Some(nonce) => match aes256_gcm_encrypt(key, nonce, plaintext) {
                Some(body) => Ok(blob_of(nonce, body)),
                None => Err(EncryptionError),
            },
            None => Err(EncryptionError),
        }
    }
}

/// Makes a key of `bytes`, which must be as many as a key has.
pub fn key_from_bytes(bytes: &[u8]) -> (r: Result<Key32, GenerationError>)
    ensures
        match r {
            Ok(key) => bytes@.len() == KEY_LEN && key@ == bytes@,
            Err(_) => bytes@.len() != KEY_LEN,
        },
{
    if bytes.len() != KEY_LEN {
        return Err(GenerationError);
    }
    let mut key = [0u8; 32];
    let mut i: usize = 0;
    while i < KEY_LEN
        invariant
            i <= KEY_LEN,
            bytes@.len() == KEY_LEN,
            forall|k: int| 0 <= k < i ==> key@[k] == bytes@[k],
        decreases KEY_LEN - i,
    {
        key[i] = bytes[i];
        i += 1;
    }
    Ok(key)
}

/// Generates a fresh key from the operating system's random number generator.
/// Fails only where the generator does.
pub fn generate_key() -> (r: Result<Key32, GenerationError>)
    ensures
        r matches Ok(key) ==> key@.len() == KEY_LEN,
{
    match os_random_bytes(KEY_LEN) {
        Ok(bytes) => key_from_draw(Some(bytes)),
        Err(_) => key_from_draw(None),
    }
}

/// Decides what generating a key returns once the entropy source has
/// answered: the bytes it gave as a key, or an error where it failed or gave
/// another number of bytes than a key has.
pub fn key_from_draw(drawn: Option<Vec<u8>>) -> (r: Result<Key32, GenerationError>)
    ensures
        match r {
            Ok(key) => key_of_draw(bytes_view(drawn)) == Ok::<Seq<u8>, GenerationError>(key@),
            Err(e) => key_of_draw(bytes_view(drawn)) == Err::<Seq<u8>, GenerationError>(e),
        },
{
    match drawn {
        Some(bytes) => key_from_bytes(bytes.as_slice()),
        None => Err(GenerationError),
    }
}

/// Tells whether a plaintext of `len` bytes is within what can be sealed.
pub fn within_cipher_limit(len: usize) -> (ok: bool)
    ensures
        ok == encryptable_len(len as int),
{
    len as u64 <= MAX_PLAINTEXT_LEN && len <= isize::MAX as usize - TAG_LEN
}

/// Seals `plaintext` under `key`, with a nonce drawn for this call alone.
///
/// Fails on a plaintext beyond the cipher's limit, and where the entropy
/// source or the cipher fails; it does not retry.
pub fn seal(key: &Key32, plaintext: &[u8]) -> (r: Result<Vec<u8>, EncryptionError>)
    ensures
        r matches Ok(blob) ==> is_sealed(key@, plaintext@, blob@),
        !encryptable_len(plaintext@.len() as int) ==> r is Err,
{
    match os_random_bytes(NONCE_LEN) {
        Ok(nonce) => seal_drawn(key, Some(nonce), plaintext),
        Err(_) => seal_drawn(key, None, plaintext),
    }
}

/// Does what is left of sealing once the entropy source has answered: under
/// the nonce it gave, encrypts the plaintext and puts the blob together; fails
/// where it gave none, on a plaintext beyond the cipher's limit, and where the
/// cipher refuses.
fn seal_drawn(key: &Key32, drawn: Option<Vec<u8>>, plaintext: &[u8]) -> (r: Result<
    Vec<u8>,
    EncryptionError,
>)
    requires
        drawn matches Some(nonce) ==> nonce@.len() == NONCE_LEN,
    ensures
        match r {
            Ok(blob) => {
                &&& seal_of_draw(key@, bytes_view(drawn), plaintext@) == Ok::<
                    Seq<u8>,
                    EncryptionError,
                >(blob@)
                &&& is_sealed(key@, plaintext@, blob@)
            },
            Err(e) => seal_of_draw(key@, bytes_view(drawn), plaintext@) == Err::<
                Seq<u8>,
                EncryptionError,
            >(e),
        },
{
    if !within_cipher_limit(plaintext.len()) {
        return Err(EncryptionError);
    }
    let nonce = match drawn {
        Some(bytes) => bytes,
        None => {
            return Err(EncryptionError);
        },
    };
    match aead_encrypt(key.as_slice(), nonce.as_slice(), plaintext) {
        Ok(body) => {
            let blob = join_blob(nonce.as_slice(), body.as_slice());
            proof {
                lemma_split_inverts_join(nonce@, body@);
            }
            Ok(blob)
        },
        Err(_) => Err(EncryptionError),
    }
}

/// Decides what opening returns once the cipher has answered: the recovered
/// plaintext, or the kind of failure, told by the length of the body that the
/// cipher was given.
pub fn open_outcome(body_len: usize, recovered: Option<Vec<u8>>) -> (r: Result<Vec<u8>, OpenError>)
    ensures
        opens_to(r, open_outcome_of(body_len as int, bytes_view(recovered))),
{
    match recovered {
        Some(plaintext) => Ok(plaintext),
        None => {
            if body_len < TAG_LEN || (body_len - TAG_LEN) as u64 > MAX_CIPHERTEXT_LEN {
                Err(OpenError::Decryption)
            } else {
                Err(OpenError::Authentication)
            }
        },
    }
}

/// Opens `blob` under a key given as a byte string.
fn open_with(key: &[u8], blob: &[u8]) -> (r: Result<Vec<u8>, OpenError>)
    requires
        key@.len() == KEY_LEN,
    ensures
        opens_to(r, open_of(key@, blob@)),
        r matches Ok(plaintext) ==> blob@.len() == sealed_len(plaintext@.len() as int),
{
    match split_blob(blob) {
        None => Err(OpenError::MalformedInput),
        Some((nonce, body)) => {
            let recovered = match aead_decrypt(key, nonce, body) {
                Ok(plaintext) => Some(plaintext),
                Err(_) => None,
            };
            open_outcome(body.len(), recovered)
        },
    }
}

/// Opens `blob` under `key`: all of the plaintext where the tag verifies, and
/// none of it otherwise.
///
/// A blob shorter than a nonce is refused as malformed before the cipher is
/// called.
pub fn open(key: &Key32, blob: &[u8]) -> (r: Result<Vec<u8>, OpenError>)
    ensures
        opens_to(r, open_of(key@, blob@)),
        r matches Ok(plaintext) ==> blob@.len() == sealed_len(plaintext@.len() as int),
{
    open_with(key.as_slice(), blob)
}

/// Whether `text` is the transport form of a blob that seals `data` under
/// `key`: the uppercase hexadecimal text of that blob.
pub open spec fn is_encrypted(key: Seq<u8>, data: Seq<u8>, text: Seq<char>) -> bool {
    &&& is_sealed(key, data, hex_decode(text))
    &&& text == hex_encode(hex_decode(text), true)
}

/// What decrypting `text` under `key` returns: the text is decoded, then the
/// blob is opened.
pub open spec fn decrypt_of(key: Seq<u8>, text: Seq<char>) -> Result<Seq<u8>, CryptoError> {
    if !is_hex_text(text) {
        Err(CryptoError::Encoding)
    } else {
        match open_of(key, hex_decode(text)) {
            Ok(plaintext) => Ok(plaintext),
            Err(e) => Err(e.widened()),
        }
    }
}

/// Whether the executable result `r` is the result `expected` of the model.
pub open spec fn decrypts_to(r: Result<Vec<u8>, CryptoError>, expected: Result<Seq<u8>, CryptoError>) -> bool {
    match r {
        Ok(plaintext) => expected == Ok::<Seq<u8>, CryptoError>(plaintext@),
        Err(e) => expected == Err::<Seq<u8>, CryptoError>(e),
    }
}

/// Decrypting an encrypted text under the key it was encrypted under gives
/// back the data.
pub proof fn lemma_decrypt_inverts_encrypt(key: Seq<u8>, data: Seq<u8>, text: Seq<char>)
    requires
        is_encrypted(key, data, text),
    ensures
        decrypt_of(key, text) == Ok::<Seq<u8>, CryptoError>(data),
{
    lemma_hex_round_trip(hex_decode(text), true);
}

/// Seals `data` under `key` and returns the blob as uppercase hexadecimal
/// text. Fails where sealing does.
pub fn encrypt(key: &Key32, data: &[u8]) -> (r: Result<String, EncryptionError>)
    ensures
        r matches Ok(text) ==> is_encrypted(key@, data@, text@),
        !encryptable_len(data@.len() as int) ==> r is Err,
{
    match seal(key, data) {
        Ok(blob) => {
            let text = to_hex_upper(blob.as_slice());
            proof {
                lemma_hex_round_trip(blob@, true);
            }
            Ok(text)
        },
        Err(e) => Err(e),
    }
}

/// Decodes `data` from hexadecimal text, in either case, and opens the blob
/// under `key`.
pub fn decrypt(key: &[u8], data: &str) -> (r: Result<Vec<u8>, CryptoError>)
    requires
        key@.len() == KEY_LEN,
    ensures
        decrypts_to(r, decrypt_of(key@, data@)),
{
    match from_hex(data) {
        Err(_) => Err(CryptoError::Encoding),
        Ok(blob) => match open_with(key, blob.as_slice()) {
            Ok(plaintext) => Ok(plaintext),
            Err(e) => Err(e.widen()),
        },
    }
}

/// Writes `key` as lowercase hexadecimal text.
pub fn encode_key(key: &Key32) -> (text: String)
    ensures
        text@ == hex_encode(key@, false),
        text@.len() == 2 * KEY_LEN,
{
    to_hex(key.as_slice())
}

} // verus!
