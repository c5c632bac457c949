//! Errors.
use vstd::prelude::*;

verus! {

/// What can go wrong with a management key.
#[derive(Clone, Copy, Debug, PartialEq, Eq, Structural)]
pub enum Error {
    /// Algorithm error: the algorithm identifier is not known.
    AlgorithmError,
    /// Generic error.
    GenericError,
    /// Invalid object: the card answered with something that cannot be.
    InvalidObject,
    /// Key error: the key is weak.
    KeyError,
    /// Not supported by the card.
    NotSupported,
    /// Size error: the input has the wrong length.
    SizeError,
    /// Any other failure of the card or of the connection to it, under the number that
    /// the connection gives to it.
    Device {
        /// The number of the failure.
        code: u32,
    },
}

} // verus!
