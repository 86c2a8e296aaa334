//! Fresh secret scalars from the operating system's random source.

use vstd::prelude::*;

use rand_core::RngCore;

verus! {

/// `rand_core::Error`, carried opaque from the random source to the point
/// where it is mapped to the library's own error.
#[verifier::external_type_specification]
#[verifier::external_body]
pub struct ExRandError(rand_core::Error);

/// Relies on `rand_core::OsRng::try_fill_bytes`: fills the 32 bytes from the
/// operating system's random source, or reports that the source failed.
/// Nothing is known of the bytes.
#[verifier::external_body]
pub(crate) fn os_random_scalar() -> (r: Result<[u8; 32], rand_core::Error>) {
    let mut k = [0u8; 32];
    rand_core::OsRng.try_fill_bytes(&mut k)?;
    Ok(k)
}

} // verus!
