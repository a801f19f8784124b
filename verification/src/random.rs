//! The source of random bytes.

use vstd::prelude::*;
use rand::Rng;

verus! {

/// Draws one byte from `rand::rng()`, the generator that the `rand` crate
/// keeps per thread and seeds once from the operating system, by
/// `Rng::random::<u8>()`.
///
/// The body is not verified and the contract claims nothing of the byte:
/// any value of a `u8` may come back, and two calls may differ. `rand::rng()`
/// panics if its generator cannot be seeded when the thread first uses it.
#[verifier::external_body]
pub(crate) fn random_byte() -> (byte: u8) {
    let mut rng = rand::rng();
    rng.random::<u8>()
}

} // verus!
