//! The X25519 function of RFC 7748, as computed by `x25519_dalek`.

use vstd::prelude::*;

verus! {

/// Length in bytes of an X25519 scalar, of a u-coordinate and of the
/// function's output.
pub const X25519_LEN: usize = 32;

/// The u-coordinate of the Curve25519 base point (u = 9), little-endian.
pub const X25519_BASEPOINT: [u8; 32] = [
    9, 0, 0, 0, 0, 0, 0, 0, 0, 0, 0, 0, 0, 0, 0, 0,
    0, 0, 0, 0, 0, 0, 0, 0, 0, 0, 0, 0, 0, 0, 0, 0,
];

/// The X25519 function of RFC 7748: scalar `k` (clamped) times the point
/// with u-coordinate `u`, as 32 little-endian bytes.
pub uninterp spec fn x25519_of(k: Seq<u8>, u: Seq<u8>) -> Seq<u8>;

/// The public key share that belongs to scalar `k`.
pub open spec fn public_key_of(k: Seq<u8>) -> Seq<u8> {
    x25519_of(k, X25519_BASEPOINT@)
}

/// Relies on `x25519_dalek::x25519`: a deterministic function of its two
/// arguments (`MontgomeryPoint(u).mul_clamped(k).to_bytes()`), which never
/// panics.
pub assume_specification[ x25519_dalek::x25519 ](k: [u8; 32], u: [u8; 32]) -> (r: [u8; 32])
    ensures
        r@ == x25519_of(k@, u@),
;

} // verus!
