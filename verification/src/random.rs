//! Random bytes.
use rand_core::{OsRng, RngCore};
use vstd::prelude::*;

verus! {

/// An array filled with random bytes of the operating system, by `fill_bytes` of `OsRng`
/// of the `rand_core` crate. Nothing is claimed of the bytes. On a system that has no
/// randomness to give `fill_bytes` panics; no argument decides that.
#[verifier::external_body]
pub(crate) fn fill_random<const N: usize>() -> (bytes: [u8; N]) {
    let mut bytes = [0u8; N];
    OsRng.fill_bytes(&mut bytes);
    bytes
}

} // verus!
