//! Fresh random bytes for handshake challenges and self-test patterns.

use rand::rngs::SmallRng;
use rand::{RngCore, SeedableRng};
use vstd::prelude::*;

verus! {

/// Seeds a `rand::rngs::SmallRng` from the system's entropy and lets its
/// `fill_bytes` fill a buffer of `count` bytes. Trusted: the result has
/// `count` bytes. Nothing is claimed of their values. Seeding panics where
/// the system cannot provide entropy.
#[verifier::external_body]
pub(crate) fn random_bytes(count: usize) -> (bytes: Vec<u8>)
    ensures
        bytes@.len() == count,
{
    let mut bytes = vec![0u8; count];
    let mut rng = SmallRng::from_entropy();
    rng.fill_bytes(&mut bytes);
    bytes
}

} // verus!
