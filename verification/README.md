# yubikey-mgm

Management keys of YubiKeys, as a verified Verus library.

- `src/key.rs`: the keys, with `src/algorithm.rs` (algorithms and their codes),
  `src/weak.rs` (weak DES keys) and `src/error.rs`.
- `src/cipher.rs`, `src/kdf.rs`, `src/random.rs`, `src/wipe.rs`: the calls into the
  `aes`, `des`, `pbkdf2`, `sha1`, `rand_core` and `zeroize` crates, each with the contract
  that the proofs rest on.
- `src/procedure.rs`: procedures, which decide what to ask of the card next, in the terms of
  `src/card.rs`. `src/set_manual.rs`, `src/set_protected.rs` and `src/fetch.rs` hold them.
- `src/laws.rs`: what the procedures achieve on a card.
- `app/`: carries the procedures out on a connection to a YubiKey.
