//! Core of the konbini service: authenticated symmetric encryption of byte
//! strings under 256-bit keys, the hexadecimal text form in which keys and
//! sealed blobs travel, and the records that the service keeps.

pub mod config;
pub mod crypto;
pub mod routes;
pub mod user;

pub use crate::user::User;
