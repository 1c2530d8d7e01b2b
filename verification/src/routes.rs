//! What the service answers to its requests, before the answer is put on the
//! wire.

use crate::crypto::aes::{
    decrypt, encode_key, encrypt, generate_key, is_encrypted, CryptoError,
};
use crate::crypto::cipher::KEY_LEN;
use crate::crypto::encoding::{hex_decode, hex_encode, lemma_hex_round_trip};
use crate::user::{is_random_uuid, storable, User};
use vstd::prelude::*;
use vstd::utf8::{
    decode_utf8, encode_utf8, encode_utf8_decode_utf8, encode_utf8_valid_utf8, valid_utf8,
};

verus! {

/// A request to make a user.
#[derive(Debug)]
pub struct CreateUserRequest {
    /// The name the user asks for.
    pub username: String,
    /// The address the user gives.
    pub email: String,
}

/// Returned when a request names no user that can be stored.
#[derive(Debug, Clone, Copy, PartialEq, Eq, Structural)]
pub struct InvalidUser;

/// One run of the cipher, made to demonstrate it: a key, a text, and the text
/// sealed under the key.
#[derive(Debug)]
pub struct AES {
    /// The key, as lowercase hexadecimal text.
    pub key: String,
    /// The text that was sealed, and came back when the blob was opened.
    pub plaintext: String,
    /// The sealed blob, as uppercase hexadecimal text.
    pub ciphertext: String,
}

impl AES {
    /// Puts the three texts of a run together.
    pub fn new(key: String, plaintext: String, ciphertext: String) -> (aes: AES)
        ensures
            aes.key == key,
            aes.plaintext == plaintext,
            aes.ciphertext == ciphertext,
    {
        AES { plaintext, ciphertext, key }
    }
}

impl Clone for AES {
    fn clone(&self) -> (aes: Self)
        ensures
            aes == *self,
    {
        AES {
            key: self.key.clone(),
            plaintext: self.plaintext.clone(),
            ciphertext: self.ciphertext.clone(),
        }
    }
}

/// Makes the user that `payload` asks for and stores the record at the end of
/// `users`, if it is valid; otherwise stores nothing.
pub fn create_user(users: &mut Vec<User>, payload: CreateUserRequest) -> (r: Result<User, InvalidUser>)
    ensures
        match r {
            Ok(user) => {
                &&& user.username == payload.username
                &&& user.email == payload.email
                &&& is_random_uuid(user.id@)
                &&& storable(payload.username@, payload.email@)
                &&& final(users)@ == old(users)@.push(user)
            },
            Err(_) => {
                &&& !storable(payload.username@, payload.email@)
                &&& final(users)@ == old(users)@
            },
        },
{
    let user = User::new(payload.username, payload.email);
    if user.validate() {
        users.push(user.clone());
        Ok(user)
    } else {
        Err(InvalidUser)
    }
}

/// Gives the users that are stored, in the order in which they were stored.
pub fn list_users(users: &Vec<User>) -> (listed: Vec<User>)
    ensures
        listed@ == users@,
{
    let mut listed: Vec<User> = Vec::new();
    let mut i: usize = 0;
    while i < users.len()
        invariant
            i <= users.len(),
            listed@ == users@.take(i as int),
        decreases users.len() - i,
    {
        listed.push(users[i].clone());
        i += 1;
    }
    listed
}

/// The text that a demonstration seals.
pub open spec fn demo_text() -> Seq<char> {
    "some text"@
}

/// Whether `aes` records a run of the cipher on the demonstration's text: its
/// key is the lowercase hexadecimal text of a key, its ciphertext the
/// transport form of a blob that seals the text's bytes under that key, and
/// its plaintext the text.
pub open spec fn is_demo(aes: AES) -> bool {
    &&& hex_decode(aes.key@).len() == KEY_LEN
    &&& aes.key@ == hex_encode(hex_decode(aes.key@), false)
    &&& is_encrypted(hex_decode(aes.key@), encode_utf8(demo_text()), aes.ciphertext@)
    &&& aes.plaintext@ == demo_text()
}

/// The error of `String::from_utf8`.
#[verifier::external_type_specification]
#[verifier::external_body]
pub struct ExFromUtf8Error(std::string::FromUtf8Error);

/// Reads `bytes` as UTF-8 text, by `String::from_utf8`. Assumed: the call
/// succeeds on well-formed UTF-8 and on nothing else, and the text it returns
/// is the one that the bytes encode.
#[verifier::external_body]
fn text_of(bytes: Vec<u8>) -> (r: Result<String, std::string::FromUtf8Error>)
    ensures
        match r {
            Ok(text) => valid_utf8(bytes@) && text@ == decode_utf8(bytes@),
            Err(_) => !valid_utf8(bytes@),
        },
{
    String::from_utf8(bytes)
}

/// Runs the cipher once to demonstrate it: generates a key, seals the
/// demonstration's text under it, opens the blob again, and records the three
/// as texts.
///
/// Only generating the key and sealing can fail: what was sealed opens.
pub fn aes_cipher() -> (r: Result<AES, CryptoError>)
    ensures
        match r {
            Ok(aes) => is_demo(aes),
            Err(e) => e == CryptoError::Generation || e == CryptoError::Encryption,
        },
{
    let key = match generate_key() {
        Ok(k) => k,
        Err(_) => {
            return Err(CryptoError::Generation);
        },
    };
    let data = "some text".as_bytes();
    let ciphertext = match encrypt(&key, data) {
        Ok(k) => k,
        Err(_) => {
            return Err(CryptoError::Encryption);
        },
    };
    proof {
        encode_utf8_valid_utf8(demo_text());
        encode_utf8_decode_utf8(demo_text());
        lemma_hex_round_trip(key@, false);
    }
    let plaintext = match decrypt(key.as_slice(), ciphertext.as_str()) {
        Ok(k) => k,
        Err(e) => {
            return Err(e);
        },
    };
    let plaintext = match text_of(plaintext) {
        Ok(k) => k,
        Err(_) => {
            return Err(CryptoError::Encoding);
        },
    };
    let key = encode_key(&key);
    Ok(AES::new(key, plaintext, ciphertext))
}

} // verus!
