//! The X25519 key-exchange group: start an exchange with a fresh scalar,
//! offer its public share, and complete it with the peer's share.

use vstd::prelude::*;

use crate::curve::{public_key_of, x25519_of, X25519_BASEPOINT, X25519_LEN};
use crate::key_share::{is_valid_key_share, parse_key_share};
use crate::random::os_random_scalar;

verus! {

/// The group's code point in the TLS `NamedGroup` registry.
pub const X25519_GROUP: u16 = 0x001d;

/// Why a key exchange could not go on.
#[derive(Debug, Clone, Copy, PartialEq, Eq, Structural)]
pub enum KxError {
    /// The peer's key share is not a 32-byte u-coordinate.
    InvalidKeyShare,
    /// The operating system's random source gave no bytes.
    RandomSourceFailed,
}

/// One X25519 exchange in progress: a secret scalar and the public share
/// computed from it. Completing the exchange consumes it. The scalar is held
/// as plain bytes: nothing wipes it when the exchange is dropped.
pub struct KeyExchange {
    priv_key: [u8; 32],
    pub_key: [u8; 32],
}

impl KeyExchange {
    /// The secret scalar.
    pub closed spec fn secret(&self) -> Seq<u8> {
        self.priv_key@
    }

    /// The public share offered to the peer.
    pub closed spec fn public(&self) -> Seq<u8> {
        self.pub_key@
    }

    #[verifier::type_invariant]
    spec fn inv(&self) -> bool {
        self.pub_key@ == public_key_of(self.priv_key@)
    }

    /// An exchange on the given scalar; its public share is the scalar
    /// times the base point.
    pub fn from_scalar(k: [u8; 32]) -> (r: KeyExchange)
        ensures
            r.secret() == k@,
            r.public() == public_key_of(k@),
            r.public().len() == X25519_LEN,
    {
        let pub_key = x25519_dalek::x25519(k, X25519_BASEPOINT);
        KeyExchange { priv_key: k, pub_key }
    }

    /// Agrees on a shared secret with the peer's share: the scalar times the
    /// peer's point. A share that is not 32 bytes is refused.
    pub fn complete(self, peer: &[u8]) -> (r: Result<[u8; 32], KxError>)
        ensures
            r is Ok <==> is_valid_key_share(peer@),
            r matches Ok(s) ==> s@ == x25519_of(self.secret(), peer@),
            r matches Err(e) ==> e == KxError::InvalidKeyShare,
    {
        match parse_key_share(peer) {
            Some(u) => Ok(x25519_dalek::x25519(self.priv_key, u)),
            None => Err(KxError::InvalidKeyShare),
        }
    }

    /// The public share, as it goes on the wire.
    pub fn pub_key(&self) -> (r: &[u8])
        ensures
            r@ == self.public(),
            r@ == public_key_of(self.secret()),
            r@.len() == X25519_LEN,
    {
        proof {
            use_type_invariant(self);
        }
        self.pub_key.as_slice()
    }

    /// The group this exchange belongs to.
    pub fn group(&self) -> (r: u16)
        ensures
            r == X25519_GROUP,
    {
        X25519.name()
    }
}

/// The X25519 group itself.
pub struct X25519;

impl X25519 {
    /// Starts an exchange on a fresh scalar from the operating system's
    /// random source; fails only where that source fails.
    pub fn start(&self) -> (r: Result<KeyExchange, KxError>)
        ensures
            r matches Ok(kx) ==> kx.public() == public_key_of(kx.secret()),
            r matches Ok(kx) ==> kx.public().len() == X25519_LEN,
            r matches Err(e) ==> e == KxError::RandomSourceFailed,
    {
        match os_random_scalar() {
            Ok(k) => Ok(KeyExchange::from_scalar(k)),
            Err(_) => Err(KxError::RandomSourceFailed),
        }
    }

    /// The group's code point.
    pub fn name(&self) -> (r: u16)
        ensures
            r == X25519_GROUP,
    {
        X25519_GROUP
    }
}

} // verus!
