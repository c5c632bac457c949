//! Management keys.
use crate::algorithm::{
    MgmAlgorithmId, AES_BLOCK_SIZE, AES_LEN_128, AES_LEN_192, AES_LEN_256, DES_LEN_3DES,
    DES_LEN_DES,
};
use crate::cipher::{
    aes128_decrypt, aes128_decrypt_block, aes128_encrypt, aes128_encrypt_block, aes192_decrypt,
    aes192_decrypt_block, aes192_encrypt, aes192_encrypt_block, aes256_decrypt,
    aes256_decrypt_block, aes256_encrypt, aes256_encrypt_block, tdes_ede3_decrypt,
    tdes_ede3_decrypt_block, tdes_ede3_encrypt, tdes_ede3_encrypt_block,
};
use crate::error::Error;
use crate::kdf::{derive_into, pbkdf2_hmac_sha1};
use crate::random::fill_random;
use crate::weak::{agrees_up_to_parity, is_weak, is_weak_key, lemma_weak_up_to_parity};
use crate::wipe::wipe_array;
use vstd::prelude::*;
use vstd::slice::slice_to_vec;

verus! {

/// Length of the salt of a derived management key.
pub const CB_ADMIN_SALT: usize = 16;

/// Number of PBKDF2 iterations to use when deriving from a password
pub const ITER_MGM_PBKDF2: u32 = 10000;

/// The bytes of the default key, whatever its algorithm.
pub const DEFAULT_KEY_BYTES: [u8; 24] = [
    1, 2, 3, 4, 5, 6, 7, 8, 1, 2, 3, 4, 5, 6, 7, 8, 1, 2, 3, 4, 5, 6, 7, 8,
];

/// Management Key (MGM).
///
/// This key is used to authenticate to the management applet running on
/// a YubiKey in order to perform administrative functions.
///
/// 3DES is deprecated, the default is AES192: see [`MgmKey::default_aes`]. The 3DES key
/// that [`MgmKey::default`] gives is that of firmware before 5.7.
pub enum MgmKey {
    /// 3 DES key type, the deprecated one
    TDES([u8; DES_LEN_3DES]),
    /// AES128 type
    AES128([u8; AES_LEN_128]),
    /// AES192 type
    AES192([u8; AES_LEN_192]),
    /// AES256 type
    AES256([u8; AES_LEN_256]),
}

/// What a management key is: an algorithm, and as many bytes as it takes for a key.
#[verifier::ext_equal]
pub struct KeyView {
    /// The algorithm.
    pub algo: MgmAlgorithmId,
    /// The bytes.
    pub bytes: Seq<u8>,
}

impl KeyView {
    /// The block that the key makes of a plaintext block.
    pub open spec fn encrypt_block(self, block: Seq<u8>) -> Seq<u8> {
        match self.algo {
            MgmAlgorithmId::ThreeDes => tdes_ede3_encrypt(self.bytes, block),
            MgmAlgorithmId::Aes128 => aes128_encrypt(self.bytes, block),
            MgmAlgorithmId::Aes192 => aes192_encrypt(self.bytes, block),
            MgmAlgorithmId::Aes256 => aes256_encrypt(self.bytes, block),
        }
    }

    /// The block that the key makes of a ciphertext block.
    pub open spec fn decrypt_block(self, block: Seq<u8>) -> Seq<u8> {
        match self.algo {
            MgmAlgorithmId::ThreeDes => tdes_ede3_decrypt(self.bytes, block),
            MgmAlgorithmId::Aes128 => aes128_decrypt(self.bytes, block),
            MgmAlgorithmId::Aes192 => aes192_decrypt(self.bytes, block),
            MgmAlgorithmId::Aes256 => aes256_decrypt(self.bytes, block),
        }
    }

    /// The key is a 3DES key and one of its three DES keys is weak.
    pub open spec fn weak(self) -> bool {
        self.algo == MgmAlgorithmId::ThreeDes && is_weak(self.bytes)
    }
}

/// The key whose bytes are all zero.
pub open spec fn zero_key(algo: MgmAlgorithmId) -> KeyView {
    KeyView { algo, bytes: Seq::new(algo.spec_key_len() as nat, |i: int| 0u8) }
}

/// The key of an algorithm that has the given bytes: they have to be as many as the
/// algorithm takes.
pub open spec fn typed_key(bytes: Seq<u8>, algo: MgmAlgorithmId) -> Result<KeyView, Error> {
    if bytes.len() == algo.spec_key_len() {
        Ok(KeyView { algo, bytes })
    } else {
        Err(Error::SizeError)
    }
}

/// The key of an algorithm that has the given bytes, where weak keys are refused.
pub open spec fn strong_key(bytes: Seq<u8>, algo: MgmAlgorithmId) -> Result<KeyView, Error> {
    match typed_key(bytes, algo) {
        Ok(key) => if key.weak() {
            Err(Error::KeyError)
        } else {
            Ok(key)
        },
        Err(e) => Err(e),
    }
}

/// The key that is derived from a PIN and a salt: the salt has to have the right length.
pub open spec fn derived_key(algo: MgmAlgorithmId, pin: Seq<u8>, salt: Seq<u8>) -> Result<
    KeyView,
    Error,
> {
    if salt.len() == CB_ADMIN_SALT {
        Ok(
            KeyView {
                algo,
                bytes: pbkdf2_hmac_sha1(pin, salt, ITER_MGM_PBKDF2, algo.spec_key_len() as nat),
            },
        )
    } else {
        Err(Error::GenericError)
    }
}

/// The bytes are the outcome of one draw of 24 bytes from the operating system.
pub closed spec fn drawn(bytes: [u8; 24]) -> bool {
    call_ensures(fill_random::<24>, (), bytes)
}

/// A key or an error, with the key taken for what it is.
pub open spec fn key_result(result: Result<MgmKey, Error>) -> Result<KeyView, Error> {
    match result {
        Ok(key) => Ok(key@),
        Err(e) => Err(e),
    }
}

impl View for MgmKey {
    type V = KeyView;

    open spec fn view(&self) -> KeyView {
        match self {
            MgmKey::TDES(k) => KeyView { algo: MgmAlgorithmId::ThreeDes, bytes: k@ },
            MgmKey::AES128(k) => KeyView { algo: MgmAlgorithmId::Aes128, bytes: k@ },
            MgmKey::AES192(k) => KeyView { algo: MgmAlgorithmId::Aes192, bytes: k@ },
            MgmKey::AES256(k) => KeyView { algo: MgmAlgorithmId::Aes256, bytes: k@ },
        }
    }
}

/// Copies a slice into an array of the same length.
///
/// Returns an error if the slice is the wrong size
fn to_array<const N: usize>(bytes: &[u8]) -> (r: Result<[u8; N], Error>)
    ensures
        bytes@.len() == N ==> (r matches Ok(array) && array@ == bytes@),
        bytes@.len() != N ==> r == Err::<[u8; N], Error>(Error::SizeError),
{
    if bytes.len() != N {
        return Err(Error::SizeError);
    }
    let mut array: [u8; N] = [0u8; N];
    let mut i: usize = 0;
    while i < N
        invariant
            i <= N,
            bytes@.len() == N,
            forall|j: int| 0 <= j < i ==> array@[j] == bytes@[j],
        decreases N - i,
    {
        array[i] = bytes[i];
        i += 1;
    }
    assert(array@ =~= bytes@);
    Ok(array)
}

/// An array of zeroes.
fn zeroes<const N: usize>() -> (r: [u8; N])
    ensures
        r@ == Seq::new(N as nat, |i: int| 0u8),
{
    let mut array: [u8; N] = [0u8; N];
    // the contents of a fill expression of generic length are opaque: write them one by one
    let mut i: usize = 0;
    while i < N
        invariant
            i <= N,
            forall|j: int| 0 <= j < i ==> array@[j] == 0u8,
        decreases N - i,
    {
        array[i] = 0;
        i += 1;
    }
    assert(array@ =~= Seq::new(N as nat, |i: int| 0u8));
    array
}

impl MgmKey {
    /// key algo tag
    pub fn algo(&self) -> (r: MgmAlgorithmId)
        ensures
            r == self@.algo,
            match *self {
                MgmKey::TDES(_) => r == MgmAlgorithmId::ThreeDes,
                MgmKey::AES128(_) => r == MgmAlgorithmId::Aes128,
                MgmKey::AES192(_) => r == MgmAlgorithmId::Aes192,
                MgmKey::AES256(_) => r == MgmAlgorithmId::Aes256,
            },
    {
        match self {
            MgmKey::TDES(_) => MgmAlgorithmId::ThreeDes,
            MgmKey::AES128(_) => MgmAlgorithmId::Aes128,
            MgmKey::AES192(_) => MgmAlgorithmId::Aes192,
            MgmKey::AES256(_) => MgmAlgorithmId::Aes256,
        }
    }

    /// from firmware 5.7 and above, default key is aes192 type
    pub fn default_aes() -> (r: Self)
        ensures
            r@ == (KeyView { algo: MgmAlgorithmId::Aes192, bytes: DEFAULT_KEY_BYTES@ }),
            r matches MgmKey::AES192(k) && k@ == seq![
                1u8, 2, 3, 4, 5, 6, 7, 8, 1, 2, 3, 4, 5, 6, 7, 8, 1, 2, 3, 4, 5, 6, 7, 8,
            ],
    {
        MgmKey::AES192(DEFAULT_KEY_BYTES)
    }

    /// Generate a random MGM key, type AES192
    ///
    /// The bytes are those of one draw of 24 bytes, all of them and as they were drawn. That
    /// what is drawn is random is the operating system's doing, and is not stated. Where the
    /// system has no randomness to give, there is no key: the call panics.
    pub fn generate() -> (r: Self)
        ensures
            r@.algo == MgmAlgorithmId::Aes192,
            r@.bytes.len() == AES_LEN_192,
            r matches MgmKey::AES192(bytes) && drawn(bytes),
    {
        let key_bytes: [u8; 24] = fill_random();
        Self::from_random(key_bytes)
    }

    /// The MGM key, type AES192, that is made of random bytes
    pub fn from_random(key_bytes: [u8; AES_LEN_192]) -> (r: Self)
        ensures
            r@ == (KeyView { algo: MgmAlgorithmId::Aes192, bytes: key_bytes@ }),
            r == MgmKey::AES192(key_bytes),
    {
        Self::AES192(key_bytes)
    }

    /// Create an MGM key, type 3DES, from byte slice.
    ///
    /// Returns an error if the slice is the wrong size or the key is weak. Prefer
    /// [`MgmKey::from_bytes_typed`], which takes the key's algorithm.
    pub fn from_bytes(bytes: &[u8]) -> (r: Result<Self, Error>)
        ensures
            key_result(r) == strong_key(bytes@, MgmAlgorithmId::ThreeDes),
            r matches Ok(key) ==> !key@.weak(),
            bytes@.len() != 24 ==> r == Err::<Self, Error>(Error::SizeError),
            bytes@.len() == 24 ==> (r == Err::<Self, Error>(Error::KeyError) <==> exists|
                block: int,
                w: int,
            |
                0 <= block < 3 && 0 <= w < 16 && #[trigger] agrees_up_to_parity(bytes@, block, w)),
            bytes@.len() == 24 && r != Err::<Self, Error>(Error::KeyError) ==> (r matches Ok(
                MgmKey::TDES(k),
            ) && k@ == bytes@),
    {
        let key: [u8; DES_LEN_3DES] = match to_array(bytes) {
            Ok(key) => key,
            Err(e) => return Err(e),
        };
        if is_weak_key(&key) {
            return Err(Error::KeyError);
        }
        Ok(Self::TDES(key))
    }

    /// Create an MGM key from key slice and key algo
    ///
    /// Returns an error if key slice is the wrong size. A weak key is not refused.
    pub fn from_bytes_typed(bytes: &[u8], algo: MgmAlgorithmId) -> (r: Result<Self, Error>)
        ensures
            key_result(r) == typed_key(bytes@, algo),
            r is Ok <==> bytes@.len() == (match algo {
                MgmAlgorithmId::ThreeDes => 24nat,
                MgmAlgorithmId::Aes128 => 16nat,
                MgmAlgorithmId::Aes192 => 24nat,
                MgmAlgorithmId::Aes256 => 32nat,
            }),
            r matches Ok(key) ==> (match algo {
                MgmAlgorithmId::ThreeDes => key matches MgmKey::TDES(k) && k@ == bytes@,
                MgmAlgorithmId::Aes128 => key matches MgmKey::AES128(k) && k@ == bytes@,
                MgmAlgorithmId::Aes192 => key matches MgmKey::AES192(k) && k@ == bytes@,
                MgmAlgorithmId::Aes256 => key matches MgmKey::AES256(k) && k@ == bytes@,
            }),
            r matches Err(e) ==> e == Error::SizeError,
    {
        match algo {
            MgmAlgorithmId::ThreeDes => match to_array(bytes) {
                Ok(key) => Ok(Self::TDES(key)),
                Err(e) => Err(e),
            },
            MgmAlgorithmId::Aes128 => match to_array(bytes) {
                Ok(key) => Ok(Self::AES128(key)),
                Err(e) => Err(e),
            },
            MgmAlgorithmId::Aes192 => match to_array(bytes) {
                Ok(key) => Ok(Self::AES192(key)),
                Err(e) => Err(e),
            },
            MgmAlgorithmId::Aes256 => match to_array(bytes) {
                Ok(key) => Ok(Self::AES256(key)),
                Err(e) => Err(e),
            },
        }
    }

    /// Create an MGM key from the given byte array.
    ///
    /// Returns an error if the array is the wrong size or the key is weak.
    pub fn new(key_bytes: Vec<u8>, algo: MgmAlgorithmId) -> (r: Result<Self, Error>)
        ensures
            key_result(r) == strong_key(key_bytes@, algo),
            r matches Ok(key) ==> !key@.weak(),
            r == Err::<Self, Error>(Error::SizeError) <==> key_bytes@.len() != (match algo {
                MgmAlgorithmId::ThreeDes => 24nat,
                MgmAlgorithmId::Aes128 => 16nat,
                MgmAlgorithmId::Aes192 => 24nat,
                MgmAlgorithmId::Aes256 => 32nat,
            }),
            r == Err::<Self, Error>(Error::KeyError) <==> algo == MgmAlgorithmId::ThreeDes
                && key_bytes@.len() == 24 && exists|block: int, w: int|
                0 <= block < 3 && 0 <= w < 16 && #[trigger] agrees_up_to_parity(
                    key_bytes@,
                    block,
                    w,
                ),
            r matches Err(e) ==> e == Error::SizeError || e == Error::KeyError,
            r matches Ok(key) ==> (match algo {
                MgmAlgorithmId::ThreeDes => key matches MgmKey::TDES(k) && k@ == key_bytes@,
                MgmAlgorithmId::Aes128 => key matches MgmKey::AES128(k) && k@ == key_bytes@,
                MgmAlgorithmId::Aes192 => key matches MgmKey::AES192(k) && k@ == key_bytes@,
                MgmAlgorithmId::Aes256 => key matches MgmKey::AES256(k) && k@ == key_bytes@,
            }),
    {
        match algo {
            MgmAlgorithmId::ThreeDes => Self::from_bytes(key_bytes.as_slice()),
            _ => Self::from_bytes_typed(key_bytes.as_slice(), algo),
        }
    }

    /// create empty mgm key by algo
    pub fn empty(algo: MgmAlgorithmId) -> (r: Self)
        ensures
            r@ == zero_key(algo),
            match algo {
                MgmAlgorithmId::ThreeDes => r matches MgmKey::TDES(k) && forall|i: int|
                    0 <= i < 24 ==> #[trigger] k@[i] == 0,
                MgmAlgorithmId::Aes128 => r matches MgmKey::AES128(k) && forall|i: int|
                    0 <= i < 16 ==> #[trigger] k@[i] == 0,
                MgmAlgorithmId::Aes192 => r matches MgmKey::AES192(k) && forall|i: int|
                    0 <= i < 24 ==> #[trigger] k@[i] == 0,
                MgmAlgorithmId::Aes256 => r matches MgmKey::AES256(k) && forall|i: int|
                    0 <= i < 32 ==> #[trigger] k@[i] == 0,
            },
    {
        match algo {
            MgmAlgorithmId::ThreeDes => Self::TDES(zeroes()),
            MgmAlgorithmId::Aes128 => Self::AES128(zeroes()),
            MgmAlgorithmId::Aes192 => Self::AES192(zeroes()),
            MgmAlgorithmId::Aes256 => Self::AES256(zeroes()),
        }
    }

    /// The management key (MGM) that is derived from a PIN and a salt.
    ///
    /// Returns an error if the salt is the wrong size
    pub fn derive(algo: MgmAlgorithmId, pin: &[u8], salt: &[u8]) -> (r: Result<Self, Error>)
        ensures
            key_result(r) == derived_key(algo, pin@, salt@),
            salt@.len() != 16 ==> r == Err::<Self, Error>(Error::GenericError),
            salt@.len() == 16 ==> (r matches Ok(key) && match algo {
                MgmAlgorithmId::ThreeDes => key matches MgmKey::TDES(k) && k@ == pbkdf2_hmac_sha1(
                    pin@,
                    salt@,
                    10000,
                    24,
                ),
                MgmAlgorithmId::Aes128 => key matches MgmKey::AES128(k) && k@ == pbkdf2_hmac_sha1(
                    pin@,
                    salt@,
                    10000,
                    16,
                ),
                MgmAlgorithmId::Aes192 => key matches MgmKey::AES192(k) && k@ == pbkdf2_hmac_sha1(
                    pin@,
                    salt@,
                    10000,
                    24,
                ),
                MgmAlgorithmId::Aes256 => key matches MgmKey::AES256(k) && k@ == pbkdf2_hmac_sha1(
                    pin@,
                    salt@,
                    10000,
                    32,
                ),
            }),
    {
        if salt.len() != CB_ADMIN_SALT {
            return Err(Error::GenericError);
        }
        let mut mgm_key: MgmKey = MgmKey::empty(algo);
        derive_into(pin, salt, ITER_MGM_PBKDF2, mgm_key.as_mut());
        Ok(mgm_key)
    }

    /// Overwrites the bytes of the key with zeroes, as is done when the key is dropped
    pub fn wipe(&mut self)
        ensures
            final(self)@ == zero_key(old(self)@.algo),
            match (*old(self), *final(self)) {
                (MgmKey::TDES(_), MgmKey::TDES(k)) => forall|i: int|
                    0 <= i < 24 ==> #[trigger] k@[i] == 0,
                (MgmKey::AES128(_), MgmKey::AES128(k)) => forall|i: int|
                    0 <= i < 16 ==> #[trigger] k@[i] == 0,
                (MgmKey::AES192(_), MgmKey::AES192(k)) => forall|i: int|
                    0 <= i < 24 ==> #[trigger] k@[i] == 0,
                (MgmKey::AES256(_), MgmKey::AES256(k)) => forall|i: int|
                    0 <= i < 32 ==> #[trigger] k@[i] == 0,
                _ => false,
            },
        opens_invariants none
        no_unwind
    {
        match self {
            MgmKey::TDES(k) => wipe_array(k),
            MgmKey::AES128(k) => wipe_array(k),
            MgmKey::AES192(k) => wipe_array(k),
            MgmKey::AES256(k) => wipe_array(k),
        }
    }

    /// Encrypt with mgm key
    ///
    /// Returns an error if the input is not one block long
    pub fn encrypt(&self, input: &[u8]) -> (r: Result<Vec<u8>, Error>)
        ensures
            input@.len() != self@.algo.spec_challenge_len() ==> r == Err::<Vec<u8>, Error>(
                Error::SizeError,
            ),
            input@.len() == self@.algo.spec_challenge_len() ==> (r matches Ok(output) && {
                &&& output@ == self@.encrypt_block(input@)
                &&& output@.len() == input@.len()
                &&& self@.decrypt_block(output@) == input@
            }),
            match *self {
                MgmKey::TDES(k) => input@.len() == 8 ==> (r matches Ok(output) && output@
                    == tdes_ede3_encrypt(k@, input@)),
                MgmKey::AES128(k) => input@.len() == 16 ==> (r matches Ok(output) && output@
                    == aes128_encrypt(k@, input@)),
                MgmKey::AES192(k) => input@.len() == 16 ==> (r matches Ok(output) && output@
                    == aes192_encrypt(k@, input@)),
                MgmKey::AES256(k) => input@.len() == 16 ==> (r matches Ok(output) && output@
                    == aes256_encrypt(k@, input@)),
            },
            r is Ok <==> input@.len() == (if *self is TDES {
                8nat
            } else {
                16nat
            }),
    {
        match self {
            Self::TDES(k) => match to_array::<DES_LEN_DES>(input) {
                Ok(block) => Ok(slice_to_vec(tdes_ede3_encrypt_block(k, block).as_slice())),
                Err(e) => Err(e),
            },
            Self::AES128(k) => match to_array::<AES_BLOCK_SIZE>(input) {
                Ok(block) => Ok(slice_to_vec(aes128_encrypt_block(k, block).as_slice())),
                Err(e) => Err(e),
            },
            Self::AES192(k) => match to_array::<AES_BLOCK_SIZE>(input) {
                Ok(block) => Ok(slice_to_vec(aes192_encrypt_block(k, block).as_slice())),
                Err(e) => Err(e),
            },
            Self::AES256(k) => match to_array::<AES_BLOCK_SIZE>(input) {
                Ok(block) => Ok(slice_to_vec(aes256_encrypt_block(k, block).as_slice())),
                Err(e) => Err(e),
            },
        }
    }

    /// Decrypt with mgm key
    ///
    /// Returns an error if the input is not one block long
    pub fn decrypt(&self, input: &[u8]) -> (r: Result<Vec<u8>, Error>)
        ensures
            input@.len() != self@.algo.spec_challenge_len() ==> r == Err::<Vec<u8>, Error>(
                Error::SizeError,
            ),
            input@.len() == self@.algo.spec_challenge_len() ==> (r matches Ok(output) && {
                &&& output@ == self@.decrypt_block(input@)
                &&& output@.len() == input@.len()
                &&& self@.encrypt_block(output@) == input@
            }),
            match *self {
                MgmKey::TDES(k) => input@.len() == 8 ==> (r matches Ok(output) && output@
                    == tdes_ede3_decrypt(k@, input@)),
                MgmKey::AES128(k) => input@.len() == 16 ==> (r matches Ok(output) && output@
                    == aes128_decrypt(k@, input@)),
                MgmKey::AES192(k) => input@.len() == 16 ==> (r matches Ok(output) && output@
                    == aes192_decrypt(k@, input@)),
                MgmKey::AES256(k) => input@.len() == 16 ==> (r matches Ok(output) && output@
                    == aes256_decrypt(k@, input@)),
            },
            r is Ok <==> input@.len() == (if *self is TDES {
                8nat
            } else {
                16nat
            }),
    {
        match self {
            Self::TDES(k) => match to_array::<DES_LEN_DES>(input) {
                Ok(block) => Ok(slice_to_vec(tdes_ede3_decrypt_block(k, block).as_slice())),
                Err(e) => Err(e),
            },
            Self::AES128(k) => match to_array::<AES_BLOCK_SIZE>(input) {
                Ok(block) => Ok(slice_to_vec(aes128_decrypt_block(k, block).as_slice())),
                Err(e) => Err(e),
            },
            Self::AES192(k) => match to_array::<AES_BLOCK_SIZE>(input) {
                Ok(block) => Ok(slice_to_vec(aes192_decrypt_block(k, block).as_slice())),
                Err(e) => Err(e),
            },
            Self::AES256(k) => match to_array::<AES_BLOCK_SIZE>(input) {
                Ok(block) => Ok(slice_to_vec(aes256_decrypt_block(k, block).as_slice())),
                Err(e) => Err(e),
            },
        }
    }
}

impl AsRef<[u8]> for MgmKey {
    fn as_ref(&self) -> (r: &[u8])
        ensures
            r@ == self@.bytes,
            match *self {
                MgmKey::TDES(k) => r@ == k@,
                MgmKey::AES128(k) => r@ == k@,
                MgmKey::AES192(k) => r@ == k@,
                MgmKey::AES256(k) => r@ == k@,
            },
    {
        match self {
            MgmKey::TDES(k) => k.as_slice(),
            MgmKey::AES128(k) => k.as_slice(),
            MgmKey::AES192(k) => k.as_slice(),
            MgmKey::AES256(k) => k.as_slice(),
        }
    }
}

impl AsMut<[u8]> for MgmKey {
    fn as_mut(&mut self) -> (r: &mut [u8])
        ensures
            r@ == old(self)@.bytes,
            final(self)@ == (KeyView { algo: old(self)@.algo, bytes: final(r)@ }),
    {
        match self {
            MgmKey::TDES(k) => k,
            MgmKey::AES128(k) => k,
            MgmKey::AES192(k) => k,
            MgmKey::AES256(k) => k,
        }
    }
}

impl Clone for MgmKey {
    fn clone(&self) -> (r: Self)
        ensures
            r == *self,
    {
        match self {
            MgmKey::TDES(k) => MgmKey::TDES(*k),
            MgmKey::AES128(k) => MgmKey::AES128(*k),
            MgmKey::AES192(k) => MgmKey::AES192(*k),
            MgmKey::AES256(k) => MgmKey::AES256(*k),
        }
    }
}

/// Default MGM key configured on all YubiKeys
impl Default for MgmKey {
    fn default() -> (r: Self)
        ensures
            r@ == (KeyView { algo: MgmAlgorithmId::ThreeDes, bytes: DEFAULT_KEY_BYTES@ }),
            r matches MgmKey::TDES(k) && k@ == seq![
                1u8, 2, 3, 4, 5, 6, 7, 8, 1, 2, 3, 4, 5, 6, 7, 8, 1, 2, 3, 4, 5, 6, 7, 8,
            ],
    {
        MgmKey::TDES(DEFAULT_KEY_BYTES)
    }
}

impl Drop for MgmKey {
    fn drop(&mut self)
        ensures
            final(self)@ == zero_key(old(self)@.algo),
            match (*old(self), *final(self)) {
                (MgmKey::TDES(_), MgmKey::TDES(k)) => forall|i: int|
                    0 <= i < 24 ==> #[trigger] k@[i] == 0,
                (MgmKey::AES128(_), MgmKey::AES128(k)) => forall|i: int|
                    0 <= i < 16 ==> #[trigger] k@[i] == 0,
                (MgmKey::AES192(_), MgmKey::AES192(k)) => forall|i: int|
                    0 <= i < 24 ==> #[trigger] k@[i] == 0,
                (MgmKey::AES256(_), MgmKey::AES256(k)) => forall|i: int|
                    0 <= i < 32 ==> #[trigger] k@[i] == 0,
                _ => false,
            },
        opens_invariants none
        no_unwind
    {
        self.wipe()
    }
}

/// A key has as many bytes as its algorithm takes.
pub proof fn lemma_key_len(key: MgmKey)
    ensures
        key@.bytes.len() == key@.algo.spec_key_len(),
{
}

/// A key is recovered from its bytes and its algorithm.
pub proof fn lemma_key_from_its_bytes(key: MgmKey)
    ensures
        typed_key(key@.bytes, key@.algo) == Ok::<KeyView, Error>(key@),
{
}

/// Keys of the same algorithm and with the same bytes are the same key.
pub proof fn lemma_key_is_its_view(a: MgmKey, b: MgmKey)
    requires
        a@ == b@,
    ensures
        a == b,
{
    match (a, b) {
        (MgmKey::TDES(x), MgmKey::TDES(y)) => lemma_array_is_its_view(x, y),
        (MgmKey::AES128(x), MgmKey::AES128(y)) => lemma_array_is_its_view(x, y),
        (MgmKey::AES192(x), MgmKey::AES192(y)) => lemma_array_is_its_view(x, y),
        (MgmKey::AES256(x), MgmKey::AES256(y)) => lemma_array_is_its_view(x, y),
        _ => {},
    }
}

/// Arrays with the same contents are the same array.
proof fn lemma_array_is_its_view<const N: usize>(x: [u8; N], y: [u8; N])
    requires
        x@ == y@,
    ensures
        x == y,
{
    assert(x =~= y) by {
        assert forall|i: int| 0 <= i < N implies x[i] == y[i] by {
            assert(x@[i] == y@[i]);
        }
    }
}

/// A generated key is an AES192 key whose 24 bytes are, byte for byte, those of one draw of
/// 24 bytes.
pub(crate) proof fn law_generated_key_is_drawn(key: MgmKey)
    requires
        call_ensures(MgmKey::generate, (), key),
    ensures
        key matches MgmKey::AES192(bytes) && call_ensures(fill_random::<24>, (), bytes),
{
}

/// A key is derived by PBKDF2 with HMAC-SHA1, in 10000 rounds, from the whole PIN and the
/// whole salt, and is as long as the algorithm takes; a salt that is not 16 bytes long is
/// refused.
pub proof fn law_derived_key(
    algo: MgmAlgorithmId,
    pin: &[u8],
    salt: &[u8],
    r: Result<MgmKey, Error>,
)
    requires
        call_ensures(MgmKey::derive, (algo, pin, salt), r),
    ensures
        salt@.len() != 16 ==> r == Err::<MgmKey, Error>(Error::GenericError),
        salt@.len() == 16 ==> match r {
            Ok(MgmKey::TDES(k)) => algo == MgmAlgorithmId::ThreeDes && k@ == pbkdf2_hmac_sha1(
                pin@,
                salt@,
                10000,
                24,
            ),
            Ok(MgmKey::AES128(k)) => algo == MgmAlgorithmId::Aes128 && k@ == pbkdf2_hmac_sha1(
                pin@,
                salt@,
                10000,
                16,
            ),
            Ok(MgmKey::AES192(k)) => algo == MgmAlgorithmId::Aes192 && k@ == pbkdf2_hmac_sha1(
                pin@,
                salt@,
                10000,
                24,
            ),
            Ok(MgmKey::AES256(k)) => algo == MgmAlgorithmId::Aes256 && k@ == pbkdf2_hmac_sha1(
                pin@,
                salt@,
                10000,
                32,
            ),
            Err(_) => false,
        },
{
}

/// A key encrypts a block as the cipher of its algorithm does under its bytes, whatever they
/// are, and refuses what is not a block.
pub proof fn law_encryption(key: &MgmKey, input: &[u8], r: Result<Vec<u8>, Error>)
    requires
        call_ensures(MgmKey::encrypt, (key, input), r),
    ensures
        match (*key, r) {
            (MgmKey::TDES(k), Ok(output)) => input@.len() == 8 && output@ == tdes_ede3_encrypt(
                k@,
                input@,
            ),
            (MgmKey::AES128(k), Ok(output)) => input@.len() == 16 && output@ == aes128_encrypt(
                k@,
                input@,
            ),
            (MgmKey::AES192(k), Ok(output)) => input@.len() == 16 && output@ == aes192_encrypt(
                k@,
                input@,
            ),
            (MgmKey::AES256(k), Ok(output)) => input@.len() == 16 && output@ == aes256_encrypt(
                k@,
                input@,
            ),
            (MgmKey::TDES(_), Err(e)) => input@.len() != 8 && e == Error::SizeError,
            (_, Err(e)) => input@.len() != 16 && e == Error::SizeError,
        },
{
}

/// A key decrypts a block as the cipher of its algorithm does under its bytes, whatever they
/// are, and refuses what is not a block.
pub proof fn law_decryption(key: &MgmKey, input: &[u8], r: Result<Vec<u8>, Error>)
    requires
        call_ensures(MgmKey::decrypt, (key, input), r),
    ensures
        match (*key, r) {
            (MgmKey::TDES(k), Ok(output)) => input@.len() == 8 && output@ == tdes_ede3_decrypt(
                k@,
                input@,
            ),
            (MgmKey::AES128(k), Ok(output)) => input@.len() == 16 && output@ == aes128_decrypt(
                k@,
                input@,
            ),
            (MgmKey::AES192(k), Ok(output)) => input@.len() == 16 && output@ == aes192_decrypt(
                k@,
                input@,
            ),
            (MgmKey::AES256(k), Ok(output)) => input@.len() == 16 && output@ == aes256_decrypt(
                k@,
                input@,
            ),
            (MgmKey::TDES(_), Err(e)) => input@.len() != 8 && e == Error::SizeError,
            (_, Err(e)) => input@.len() != 16 && e == Error::SizeError,
        },
{
}

/// Decrypting what was encrypted under the same key gives the block back, and so does
/// encrypting what was decrypted.
pub proof fn law_encryption_and_decryption_undo_each_other(
    key: &MgmKey,
    input: &[u8],
    middle: &[u8],
    there: Result<Vec<u8>, Error>,
    back: Result<Vec<u8>, Error>,
)
    requires
        there matches Ok(output) && output@ == middle@,
        (call_ensures(MgmKey::encrypt, (key, input), there) && call_ensures(
            MgmKey::decrypt,
            (key, middle),
            back,
        )) || (call_ensures(MgmKey::decrypt, (key, input), there) && call_ensures(
            MgmKey::encrypt,
            (key, middle),
            back,
        )),
    ensures
        back matches Ok(output) && output@ == input@,
{
}

/// `from_bytes_typed` takes exactly as many bytes as the algorithm's keys have, and the key has
/// all of them; any other number of bytes is refused.
pub proof fn law_typed_key(bytes: &[u8], algo: MgmAlgorithmId, r: Result<MgmKey, Error>)
    requires
        call_ensures(MgmKey::from_bytes_typed, (bytes, algo), r),
    ensures
        match r {
            Ok(MgmKey::TDES(k)) => algo == MgmAlgorithmId::ThreeDes && bytes@.len() == 24 && k@
                == bytes@,
            Ok(MgmKey::AES128(k)) => algo == MgmAlgorithmId::Aes128 && bytes@.len() == 16 && k@
                == bytes@,
            Ok(MgmKey::AES192(k)) => algo == MgmAlgorithmId::Aes192 && bytes@.len() == 24 && k@
                == bytes@,
            Ok(MgmKey::AES256(k)) => algo == MgmAlgorithmId::Aes256 && bytes@.len() == 32 && k@
                == bytes@,
            Err(e) => e == Error::SizeError && bytes@.len() != match algo {
                MgmAlgorithmId::ThreeDes => 24nat,
                MgmAlgorithmId::Aes128 => 16nat,
                MgmAlgorithmId::Aes192 => 24nat,
                MgmAlgorithmId::Aes256 => 32nat,
            },
        },
{
}

/// `from_bytes` takes 24 bytes, and refuses them exactly when one of their three blocks is a
/// listed key up to the parity bits; the key has the very bytes that were given.
pub proof fn law_weak_keys_are_refused(bytes: &[u8], r: Result<MgmKey, Error>)
    requires
        call_ensures(MgmKey::from_bytes, (bytes,), r),
    ensures
        ({
            let weak = exists|block: int, w: int|
                0 <= block < 3 && 0 <= w < 16 && #[trigger] agrees_up_to_parity(bytes@, block, w);
            match r {
                Ok(MgmKey::TDES(k)) => bytes@.len() == 24 && !weak && k@ == bytes@,
                Ok(_) => false,
                Err(Error::SizeError) => bytes@.len() != 24,
                Err(Error::KeyError) => bytes@.len() == 24 && weak,
                Err(_) => false,
            }
        }),
        bytes@.len() == 24 ==> (r == Err::<MgmKey, Error>(Error::KeyError) <==> is_weak(bytes@)),
{
    if bytes@.len() == 24 {
        lemma_weak_up_to_parity(bytes@);
    }
}

/// `new` does for a 3DES key what `from_bytes` does, and for any other what `from_bytes_typed`
/// does: only 3DES keys can be weak.
pub proof fn law_new_key(
    key_bytes: Vec<u8>,
    bytes: &[u8],
    algo: MgmAlgorithmId,
    r: Result<MgmKey, Error>,
    direct: Result<MgmKey, Error>,
)
    requires
        key_bytes@ == bytes@,
        call_ensures(MgmKey::new, (key_bytes, algo), r),
        if algo == MgmAlgorithmId::ThreeDes {
            call_ensures(MgmKey::from_bytes, (bytes,), direct)
        } else {
            call_ensures(MgmKey::from_bytes_typed, (bytes, algo), direct)
        },
    ensures
        r == direct,
{
    if let (Ok(a), Ok(b)) = (r, direct) {
        lemma_key_is_its_view(a, b);
    }
}

/// An empty key has as many bytes as its algorithm takes, and all of them are zero.
pub proof fn law_empty_key(algo: MgmAlgorithmId, key: MgmKey)
    requires
        call_ensures(MgmKey::empty, (algo,), key),
    ensures
        match (algo, key) {
            (MgmAlgorithmId::ThreeDes, MgmKey::TDES(k)) => k@ == Seq::new(24, |i: int| 0u8),
            (MgmAlgorithmId::Aes128, MgmKey::AES128(k)) => k@ == Seq::new(16, |i: int| 0u8),
            (MgmAlgorithmId::Aes192, MgmKey::AES192(k)) => k@ == Seq::new(24, |i: int| 0u8),
            (MgmAlgorithmId::Aes256, MgmKey::AES256(k)) => k@ == Seq::new(32, |i: int| 0u8),
            _ => false,
        },
{
}

/// The default key of firmware 5.7 and above, and a key made of random bytes, are AES192 keys
/// with the bytes `1` to `8` three times over, and with the bytes that were given.
pub proof fn law_aes192_keys(default_key: MgmKey, random: [u8; 24], random_key: MgmKey)
    requires
        call_ensures(MgmKey::default_aes, (), default_key),
        call_ensures(MgmKey::from_random, (random,), random_key),
    ensures
        default_key matches MgmKey::AES192(k) && forall|i: int|
            0 <= i < 24 ==> #[trigger] k@[i] == i % 8 + 1,
        random_key == MgmKey::AES192(random),
{
}

/// What a key is: its variant and the bytes that it holds.
pub proof fn law_key_view(key: MgmKey)
    ensures
        match key {
            MgmKey::TDES(k) => key@.algo == MgmAlgorithmId::ThreeDes && key@.bytes == k@,
            MgmKey::AES128(k) => key@.algo == MgmAlgorithmId::Aes128 && key@.bytes == k@,
            MgmKey::AES192(k) => key@.algo == MgmAlgorithmId::Aes192 && key@.bytes == k@,
            MgmKey::AES256(k) => key@.algo == MgmAlgorithmId::Aes256 && key@.bytes == k@,
        },
        forall|algo: MgmAlgorithmId|
            call_ensures(MgmKey::algo, (&key,), algo) ==> algo == key@.algo,
{
}

} // verus!
