//! Block ciphers of management keys.
//!
//! The ciphers themselves come from the `aes` and `des` crates. What a cipher makes of a
//! key and a block has a name here, one for each direction; besides its name, all that
//! is taken from those crates is that the two directions undo each other.
use crate::algorithm::{
    AES_BLOCK_SIZE, AES_LEN_128, AES_LEN_192, AES_LEN_256, DES_LEN_3DES, DES_LEN_DES,
};
use aes::cipher::generic_array::GenericArray;
use aes::cipher::{BlockDecrypt, BlockEncrypt, KeyInit};
use aes::{Aes128, Aes192, Aes256};
use des::TdesEde3;
use vstd::prelude::*;

verus! {

/// What 3DES in EDE mode with three keys makes of a plaintext block under a key.
pub uninterp spec fn tdes_ede3_encrypt(key: Seq<u8>, block: Seq<u8>) -> Seq<u8>;

/// What 3DES in EDE mode with three keys makes of a ciphertext block under a key.
pub uninterp spec fn tdes_ede3_decrypt(key: Seq<u8>, block: Seq<u8>) -> Seq<u8>;

/// What AES-128 makes of a plaintext block under a key.
pub uninterp spec fn aes128_encrypt(key: Seq<u8>, block: Seq<u8>) -> Seq<u8>;

/// What AES-128 makes of a ciphertext block under a key.
pub uninterp spec fn aes128_decrypt(key: Seq<u8>, block: Seq<u8>) -> Seq<u8>;

/// What AES-192 makes of a plaintext block under a key.
pub uninterp spec fn aes192_encrypt(key: Seq<u8>, block: Seq<u8>) -> Seq<u8>;

/// What AES-192 makes of a ciphertext block under a key.
pub uninterp spec fn aes192_decrypt(key: Seq<u8>, block: Seq<u8>) -> Seq<u8>;

/// What AES-256 makes of a plaintext block under a key.
pub uninterp spec fn aes256_encrypt(key: Seq<u8>, block: Seq<u8>) -> Seq<u8>;

/// What AES-256 makes of a ciphertext block under a key.
pub uninterp spec fn aes256_decrypt(key: Seq<u8>, block: Seq<u8>) -> Seq<u8>;

/// Encrypts one block with `TdesEde3` of the `des` crate, by its `encrypt_block`. The result is
/// a function of the key and of the block alone, and decryption under the same key gives the
/// block back: a block cipher is a keyed permutation of the blocks.
#[verifier::external_body]
pub(crate) fn tdes_ede3_encrypt_block(
    key: &[u8; DES_LEN_3DES],
    block: [u8; DES_LEN_DES],
) -> (out: [u8; DES_LEN_DES])
    ensures
        out@ == tdes_ede3_encrypt(key@, block@),
        tdes_ede3_decrypt(key@, out@) == block@,
{
    let mut block = GenericArray::from(block);
    TdesEde3::new(GenericArray::from_slice(key)).encrypt_block(&mut block);
    block.into()
}

/// Decrypts one block with `TdesEde3` of the `des` crate, by its `decrypt_block`. The result is
/// a function of the key and of the block alone, and encryption under the same key gives the
/// block back: a block cipher is a keyed permutation of the blocks.
#[verifier::external_body]
pub(crate) fn tdes_ede3_decrypt_block(
    key: &[u8; DES_LEN_3DES],
    block: [u8; DES_LEN_DES],
) -> (out: [u8; DES_LEN_DES])
    ensures
        out@ == tdes_ede3_decrypt(key@, block@),
        tdes_ede3_encrypt(key@, out@) == block@,
{
    let mut block = GenericArray::from(block);
    TdesEde3::new(GenericArray::from_slice(key)).decrypt_block(&mut block);
    block.into()
}

/// Encrypts one block with `Aes128` of the `aes` crate, by its `encrypt_block`. The result is
/// a function of the key and of the block alone, and decryption under the same key gives the
/// block back: a block cipher is a keyed permutation of the blocks.
#[verifier::external_body]
pub(crate) fn aes128_encrypt_block(
    key: &[u8; AES_LEN_128],
    block: [u8; AES_BLOCK_SIZE],
) -> (out: [u8; AES_BLOCK_SIZE])
    ensures
        out@ == aes128_encrypt(key@, block@),
        aes128_decrypt(key@, out@) == block@,
{
    let mut block = GenericArray::from(block);
    Aes128::new(GenericArray::from_slice(key)).encrypt_block(&mut block);
    block.into()
}

/// Decrypts one block with `Aes128` of the `aes` crate, by its `decrypt_block`. The result is
/// a function of the key and of the block alone, and encryption under the same key gives the
/// block back: a block cipher is a keyed permutation of the blocks.
#[verifier::external_body]
pub(crate) fn aes128_decrypt_block(
    key: &[u8; AES_LEN_128],
    block: [u8; AES_BLOCK_SIZE],
) -> (out: [u8; AES_BLOCK_SIZE])
    ensures
        out@ == aes128_decrypt(key@, block@),
        aes128_encrypt(key@, out@) == block@,
{
    let mut block = GenericArray::from(block);
    Aes128::new(GenericArray::from_slice(key)).decrypt_block(&mut block);
    block.into()
}

/// Encrypts one block with `Aes192` of the `aes` crate, by its `encrypt_block`. The result is
/// a function of the key and of the block alone, and decryption under the same key gives the
/// block back: a block cipher is a keyed permutation of the blocks.
#[verifier::external_body]
pub(crate) fn aes192_encrypt_block(
    key: &[u8; AES_LEN_192],
    block: [u8; AES_BLOCK_SIZE],
) -> (out: [u8; AES_BLOCK_SIZE])
    ensures
        out@ == aes192_encrypt(key@, block@),
        aes192_decrypt(key@, out@) == block@,
{
    let mut block = GenericArray::from(block);
    Aes192::new(GenericArray::from_slice(key)).encrypt_block(&mut block);
    block.into()
}

/// Decrypts one block with `Aes192` of the `aes` crate, by its `decrypt_block`. The result is
/// a function of the key and of the block alone, and encryption under the same key gives the
/// block back: a block cipher is a keyed permutation of the blocks.
#[verifier::external_body]
pub(crate) fn aes192_decrypt_block(
    key: &[u8; AES_LEN_192],
    block: [u8; AES_BLOCK_SIZE],
) -> (out: [u8; AES_BLOCK_SIZE])
    ensures
        out@ == aes192_decrypt(key@, block@),
        aes192_encrypt(key@, out@) == block@,
{
    let mut block = GenericArray::from(block);
    Aes192::new(GenericArray::from_slice(key)).decrypt_block(&mut block);
    block.into()
}

/// Encrypts one block with `Aes256` of the `aes` crate, by its `encrypt_block`. The result is
/// a function of the key and of the block alone, and decryption under the same key gives the
/// block back: a block cipher is a keyed permutation of the blocks.
#[verifier::external_body]
pub(crate) fn aes256_encrypt_block(
    key: &[u8; AES_LEN_256],
    block: [u8; AES_BLOCK_SIZE],
) -> (out: [u8; AES_BLOCK_SIZE])
    ensures
        out@ == aes256_encrypt(key@, block@),
        aes256_decrypt(key@, out@) == block@,
{
    let mut block = GenericArray::from(block);
    Aes256::new(GenericArray::from_slice(key)).encrypt_block(&mut block);
    block.into()
}

/// Decrypts one block with `Aes256` of the `aes` crate, by its `decrypt_block`. The result is
/// a function of the key and of the block alone, and encryption under the same key gives the
/// block back: a block cipher is a keyed permutation of the blocks.
#[verifier::external_body]
pub(crate) fn aes256_decrypt_block(
    key: &[u8; AES_LEN_256],
    block: [u8; AES_BLOCK_SIZE],
) -> (out: [u8; AES_BLOCK_SIZE])
    ensures
        out@ == aes256_decrypt(key@, block@),
        aes256_encrypt(key@, out@) == block@,
{
    let mut block = GenericArray::from(block);
    Aes256::new(GenericArray::from_slice(key)).decrypt_block(&mut block);
    block.into()
}

} // verus!
