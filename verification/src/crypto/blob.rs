//! The layout of a sealed blob: the nonce, then what the cipher made of the
//! plaintext (the ciphertext, as long as the plaintext, followed by the tag).

use crate::crypto::cipher::{NONCE_LEN, TAG_LEN};
use vstd::prelude::*;
use vstd::slice::slice_subrange;

verus! {

/// The blob that carries `body` under `nonce`.
pub open spec fn blob_of(nonce: Seq<u8>, body: Seq<u8>) -> Seq<u8> {
    nonce + body
}

/// The nonce at the head of `blob`.
pub open spec fn blob_nonce(blob: Seq<u8>) -> Seq<u8>
    recommends
        blob.len() >= NONCE_LEN,
{
    blob.take(NONCE_LEN as int)
}

/// What follows the nonce in `blob`.
pub open spec fn blob_body(blob: Seq<u8>) -> Seq<u8>
    recommends
        blob.len() >= NONCE_LEN,
{
    blob.skip(NONCE_LEN as int)
}

/// The length of the blob that seals a plaintext of `plaintext_len` bytes.
pub open spec fn sealed_len(plaintext_len: int) -> int {
    NONCE_LEN + plaintext_len + TAG_LEN
}

/// Taking apart the blob that was put together from a nonce and a body gives
/// back the two.
pub proof fn lemma_split_inverts_join(nonce: Seq<u8>, body: Seq<u8>)
    requires
        nonce.len() == NONCE_LEN,
    ensures
        blob_nonce(blob_of(nonce, body)) == nonce,
        blob_body(blob_of(nonce, body)) == body,
{
}

/// Puts a blob together from its nonce and its body.
pub fn join_blob(nonce: &[u8], body: &[u8]) -> (blob: Vec<u8>)
    ensures
        blob@ == blob_of(nonce@, body@),
{
    let mut blob: Vec<u8> = Vec::with_capacity(nonce.len().saturating_add(body.len()));
    blob.extend_from_slice(nonce);
    blob.extend_from_slice(body);
    blob
}

/// Takes a blob apart into its nonce and its body, or returns `None` where the
/// blob is too short to hold a nonce.
pub fn split_blob(blob: &[u8]) -> (parts: Option<(&[u8], &[u8])>)
    ensures
        match parts {
            Some((nonce, body)) => {
                &&& blob@.len() >= NONCE_LEN
                &&& nonce@ == blob_nonce(blob@)
                &&& body@ == blob_body(blob@)
            },
            None => blob@.len() < NONCE_LEN,
        },
{
    if blob.len() < NONCE_LEN {
        None
    } else {
        Some((slice_subrange(blob, 0, NONCE_LEN), slice_subrange(blob, NONCE_LEN, blob.len())))
    }
}

} // verus!
