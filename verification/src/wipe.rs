//! Erasing key material from memory.
use vstd::prelude::*;

verus! {

/// Overwrites a byte array with zeroes, by the `zeroize` method that the `zeroize`
/// crate gives to arrays: it writes zero to every byte, in a way that the compiler
/// does not remove. That the array holds only zeroes afterwards is taken from that
/// crate; what copies of the bytes exist elsewhere in memory is not spoken of.
#[verifier::external_body]
pub(crate) fn wipe_array<const N: usize>(bytes: &mut [u8; N])
    ensures
        final(bytes)@ == Seq::new(N as nat, |i: int| 0u8),
    opens_invariants none
    no_unwind
{
    zeroize::Zeroize::zeroize(bytes)
}

} // verus!
