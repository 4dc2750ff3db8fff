//! The source of randomness.

use vstd::prelude::*;

verus! {

/// Draws 32 random bits from the generator of the current thread, by
/// `fastrand::u32` over its whole range. Any value of the type can come
/// back, and two calls need not agree, so nothing is claimed of the result.
#[verifier::external_body]
pub(crate) fn random_bits() -> (bits: u32) {
    fastrand::u32(..)
}

} // verus!
