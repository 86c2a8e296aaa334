//! An X25519 key-exchange group: the scalar, the public key share that goes
//! on the wire, and the shared secret agreed with a peer's share.

pub mod curve;
pub mod key_share;
pub mod kx;
mod random;

pub use kx::{KeyExchange, KxError, X25519, X25519_GROUP};
