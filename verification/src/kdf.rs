//! Key derivation from a PIN.
use pbkdf2::pbkdf2_hmac;
use sha1::Sha1;
use vstd::prelude::*;

verus! {

/// The `len` bytes that PBKDF2 with HMAC-SHA1 derives from a password and a salt in the
/// given number of rounds.
pub uninterp spec fn pbkdf2_hmac_sha1(
    password: Seq<u8>,
    salt: Seq<u8>,
    rounds: u32,
    len: nat,
) -> Seq<u8>;

/// Fills `key` by `pbkdf2_hmac` of the `pbkdf2` crate, over `Sha1` of the `sha1` crate.
/// What it writes is a function of the password, the salt, the number of rounds and the
/// length of `key`, and not of what `key` held; the length stays as it is. The bound is
/// that of the block counter of PBKDF2, which has 32 bits, over blocks of 20 bytes.
#[verifier::external_body]
pub(crate) fn derive_into(password: &[u8], salt: &[u8], rounds: u32, key: &mut [u8])
    requires
        old(key)@.len() <= 20 * u32::MAX,
    ensures
        final(key)@ == pbkdf2_hmac_sha1(password@, salt@, rounds, old(key)@.len()),
        final(key)@.len() == old(key)@.len(),
{
    pbkdf2_hmac::<Sha1>(password, salt, rounds, key)
}

} // verus!
