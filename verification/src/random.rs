//! The source of random bytes.
use vstd::prelude::*;

verus! {

/// Draws a byte with `rand::random`, which asks the generator of the
/// current thread for a uniformly distributed value.
///
/// This function is trusted, not verified. Nothing is claimed about the
/// byte: every caller is proved for all 256 values.
#[verifier::external_body]
pub(crate) fn random_byte() -> (byte: u8) {
    rand::random::<u8>()
}

} // verus!
