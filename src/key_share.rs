//! Reading a peer's X25519 key share off the wire.

use vstd::prelude::*;

use crate::curve::X25519_LEN;

verus! {

/// A peer's key share is well formed exactly when it is one u-coordinate:
/// 32 bytes, no more and no fewer.
pub open spec fn is_valid_key_share(share: Seq<u8>) -> bool {
    share.len() == X25519_LEN
}

/// The peer's share as a fixed-size u-coordinate, or `None` where its length
/// is not 32 bytes.
pub fn parse_key_share(share: &[u8]) -> (r: Option<[u8; 32]>)
    ensures
        r is Some <==> is_valid_key_share(share@),
        r matches Some(u) ==> u@ == share@,
{
    if share.len() != X25519_LEN {
        return None;
    }
    let mut u: [u8; 32] = [0u8; 32];
    let mut i: usize = 0;
    while i < X25519_LEN
        invariant
            share@.len() == X25519_LEN,
            i <= X25519_LEN,
            u@.len() == X25519_LEN,
            forall|j: int| 0 <= j < i ==> u@[j] == share@[j],
        decreases X25519_LEN - i,
    {
        u[i] = share[i];
        i = i + 1;
    }
    assert(u@ =~= share@);
    Some(u)
}

} // verus!
