//! Authenticated symmetric encryption and the text encoding of its values.

pub mod aes;
pub mod blob;
pub mod cipher;
pub mod encoding;
