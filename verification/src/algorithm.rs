//! Management key types and algorithms.
use crate::error::Error;
use vstd::prelude::*;

verus! {

/// Size of an AES-128 key.
pub const AES_LEN_128: usize = 16;

/// Size of an AES-192 key.
pub const AES_LEN_192: usize = 24;

/// Size of an AES-256 key.
pub const AES_LEN_256: usize = 32;

/// Size of an AES block.
pub const AES_BLOCK_SIZE: usize = 16;

/// Size of a DES key, and of a DES block.
pub const DES_LEN_DES: usize = 8;

/// Size of a 3DES key.
pub const DES_LEN_3DES: usize = DES_LEN_DES * 3;

/// Management Key (MGM) key types (manual/derived/protected).
#[derive(Copy, Clone, Debug, Eq, PartialEq, Structural)]
pub enum MgmType {
    /// Manual
    Manual,
    /// Derived
    Derived,
    /// Protected
    Protected,
}

/// Management key algorithm identifiers
#[derive(Clone, Copy, Debug, PartialEq, Eq, Structural)]
pub enum MgmAlgorithmId {
    /// Triple DES (3DES) in EDE mode
    ThreeDes,
    /// Aes128
    Aes128,
    /// Aes192
    Aes192,
    /// Aes256
    Aes256,
}

/// The algorithm that the card reports for the key in one of its slots.
#[derive(Clone, Copy, Debug, PartialEq, Eq, Structural)]
pub enum SlotAlgorithmId {
    /// An algorithm of a management key.
    Management(MgmAlgorithmId),
    /// Any other algorithm that is known.
    Other,
}

impl MgmAlgorithmId {
    /// The code by which the card knows the algorithm.
    pub open spec fn spec_ty_code(self) -> u8 {
        match self {
            MgmAlgorithmId::ThreeDes => 0x03,
            MgmAlgorithmId::Aes128 => 0x08,
            MgmAlgorithmId::Aes192 => 0x0A,
            MgmAlgorithmId::Aes256 => 0x0C,
        }
    }

    /// The length of a challenge: one block of the cipher.
    pub open spec fn spec_challenge_len(self) -> usize {
        match self {
            MgmAlgorithmId::ThreeDes => DES_LEN_DES,
            _ => AES_BLOCK_SIZE,
        }
    }

    /// The length of a key.
    pub open spec fn spec_key_len(self) -> usize {
        match self {
            MgmAlgorithmId::ThreeDes => DES_LEN_3DES,
            MgmAlgorithmId::Aes128 => AES_LEN_128,
            MgmAlgorithmId::Aes192 => AES_LEN_192,
            MgmAlgorithmId::Aes256 => AES_LEN_256,
        }
    }

    /// The algorithm that a code stands for.
    pub open spec fn spec_from_code(code: u8) -> Result<MgmAlgorithmId, Error> {
        if code == 0x03 {
            Ok(MgmAlgorithmId::ThreeDes)
        } else if code == 0x08 {
            Ok(MgmAlgorithmId::Aes128)
        } else if code == 0x0A {
            Ok(MgmAlgorithmId::Aes192)
        } else if code == 0x0C {
            Ok(MgmAlgorithmId::Aes256)
        } else {
            Err(Error::AlgorithmError)
        }
    }

    /// The algorithm of the management key, by what the card answers when it is asked
    /// for the metadata of the management slot.
    pub open spec fn spec_query(metadata: Result<SlotAlgorithmId, Error>) -> Result<
        MgmAlgorithmId,
        Error,
    > {
        match metadata {
            Ok(SlotAlgorithmId::Management(algo)) => Ok(algo),
            Ok(SlotAlgorithmId::Other) => Err(Error::InvalidObject),
            Err(Error::NotSupported) => Ok(MgmAlgorithmId::ThreeDes),
            Err(Error::AlgorithmError) => Err(Error::NotSupported),
            Err(e) => Err(e),
        }
    }
}

impl TryFrom<u8> for MgmAlgorithmId {
    type Error = Error;

    fn try_from(value: u8) -> (r: Result<Self, Error>) {
        match value {
            0x03 => Ok(MgmAlgorithmId::ThreeDes),
            0x08 => Ok(MgmAlgorithmId::Aes128),
            0x0A => Ok(MgmAlgorithmId::Aes192),
            0x0C => Ok(MgmAlgorithmId::Aes256),
            _ => Err(Error::AlgorithmError),
        }
    }
}

impl vstd::std_specs::convert::TryFromSpecImpl<u8> for MgmAlgorithmId {
    open spec fn obeys_try_from_spec() -> bool {
        true
    }

    open spec fn try_from_spec(value: u8) -> Result<Self, Error> {
        MgmAlgorithmId::spec_from_code(value)
    }
}

impl From<MgmAlgorithmId> for u8 {
    fn from(id: MgmAlgorithmId) -> (r: u8) {
        match id {
            MgmAlgorithmId::ThreeDes => 0x03,
            MgmAlgorithmId::Aes128 => 0x08,
            MgmAlgorithmId::Aes192 => 0x0A,
            MgmAlgorithmId::Aes256 => 0x0C,
        }
    }
}

impl vstd::std_specs::convert::FromSpecImpl<MgmAlgorithmId> for u8 {
    open spec fn obeys_from_spec() -> bool {
        true
    }

    open spec fn from_spec(id: MgmAlgorithmId) -> u8 {
        id.spec_ty_code()
    }
}

impl MgmAlgorithmId {
    /// Looks up the algorithm for the card's current management key, in what the card
    /// answered when it was asked for the metadata of the management slot.
    pub fn query(metadata: Result<SlotAlgorithmId, Error>) -> (r: Result<Self, Error>)
        ensures
            r == MgmAlgorithmId::spec_query(metadata),
            match metadata {
                Ok(SlotAlgorithmId::Management(algo)) => r == Ok::<Self, Error>(algo),
                Ok(SlotAlgorithmId::Other) => r == Err::<Self, Error>(Error::InvalidObject),
                Err(e) => if e == Error::NotSupported {
                    r == Ok::<Self, Error>(MgmAlgorithmId::ThreeDes)
                } else if e == Error::AlgorithmError {
                    r == Err::<Self, Error>(Error::NotSupported)
                } else {
                    r == Err::<Self, Error>(e)
                },
            },
    {
        match metadata {
            Ok(SlotAlgorithmId::Management(algo)) => Ok(algo),
            // The metadata is that of the management key slot; a known algorithm that
            // is no management algorithm is invalid there.
            Ok(SlotAlgorithmId::Other) => Err(Error::InvalidObject),
            // Firmware versions without `GET METADATA` only support 3DES.
            Err(Error::NotSupported) => Ok(MgmAlgorithmId::ThreeDes),
            // `Error::AlgorithmError` only occurs when a new algorithm is encountered.
            Err(Error::AlgorithmError) => Err(Error::NotSupported),
            // Raise other errors as-is.
            Err(e) => Err(e),
        }
    }

    /// challenge length for different algo type
    pub fn challenge_len(&self) -> (r: usize)
        ensures
            r == self.spec_challenge_len(),
    {
        match self {
            MgmAlgorithmId::ThreeDes => DES_LEN_DES,
            _ => AES_BLOCK_SIZE,
        }
    }

    /// algo type code
    pub fn ty_code(&self) -> (r: u8)
        ensures
            r == self.spec_ty_code(),
    {
        (*self).into()
    }

    /// key length
    pub fn key_len(&self) -> (r: usize)
        ensures
            r == self.spec_key_len(),
    {
        match self {
            MgmAlgorithmId::ThreeDes => DES_LEN_3DES,
            MgmAlgorithmId::Aes128 => AES_LEN_128,
            MgmAlgorithmId::Aes192 => AES_LEN_192,
            MgmAlgorithmId::Aes256 => AES_LEN_256,
        }
    }
}

/// Converting an algorithm to its code and back gives the algorithm; and a code that
/// stands for an algorithm is the code of that algorithm. So no two algorithms share a
/// code.
pub proof fn lemma_code_round_trip(algo: MgmAlgorithmId, code: u8)
    ensures
        MgmAlgorithmId::spec_from_code(algo.spec_ty_code()) == Ok::<MgmAlgorithmId, Error>(algo),
        MgmAlgorithmId::spec_from_code(code) == Ok::<MgmAlgorithmId, Error>(algo) ==> code
            == algo.spec_ty_code(),
{
}

/// The code, the length of a key and the length of a challenge of each algorithm.
pub proof fn law_algorithm_table(algo: MgmAlgorithmId)
    ensures
        (algo.spec_ty_code(), algo.spec_key_len(), algo.spec_challenge_len()) == match algo {
            MgmAlgorithmId::ThreeDes => (0x03u8, 24usize, 8usize),
            MgmAlgorithmId::Aes128 => (0x08u8, 16usize, 16usize),
            MgmAlgorithmId::Aes192 => (0x0Au8, 24usize, 16usize),
            MgmAlgorithmId::Aes256 => (0x0Cu8, 32usize, 16usize),
        },
        forall|r: u8| call_ensures(MgmAlgorithmId::ty_code, (&algo,), r) ==> r
            == algo.spec_ty_code(),
        forall|r: usize| call_ensures(MgmAlgorithmId::key_len, (&algo,), r) ==> r
            == algo.spec_key_len(),
        forall|r: usize| call_ensures(MgmAlgorithmId::challenge_len, (&algo,), r) ==> r
            == algo.spec_challenge_len(),
{
}

/// A code that is not one of the four is an error, and no other error comes of a code.
pub proof fn law_unknown_codes(code: u8)
    ensures
        match MgmAlgorithmId::spec_from_code(code) {
            Ok(_) => code == 0x03 || code == 0x08 || code == 0x0A || code == 0x0C,
            Err(e) => e == Error::AlgorithmError && code != 0x03 && code != 0x08 && code != 0x0A
                && code != 0x0C,
        },
{
}

/// An algorithm is found in the metadata exactly when they name a management algorithm, or
/// when the card does not know the request for them, and then it is 3DES. Metadata of any other
/// kind are invalid, an algorithm that is not known is not supported, and every other failure
/// is passed on.
pub proof fn law_query(metadata: Result<SlotAlgorithmId, Error>, r: Result<MgmAlgorithmId, Error>)
    requires
        call_ensures(MgmAlgorithmId::query, (metadata,), r),
    ensures
        match (metadata, r) {
            (Ok(SlotAlgorithmId::Management(named)), Ok(algo)) => algo == named,
            (Ok(SlotAlgorithmId::Other), Err(e)) => e == Error::InvalidObject,
            (Err(failure), Ok(algo)) => failure == Error::NotSupported && algo
                == MgmAlgorithmId::ThreeDes,
            (Err(failure), Err(e)) => failure != Error::NotSupported && e == (if failure
                == Error::AlgorithmError {
                Error::NotSupported
            } else {
                failure
            }),
            _ => false,
        },
        r == MgmAlgorithmId::spec_query(metadata),
{
}

} // verus!
