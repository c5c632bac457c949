//! Management keys of YubiKeys.
//!
//! The management key authenticates to the management applet of a YubiKey. This crate
//! makes such keys, tells weak ones, encrypts and decrypts challenges with them, and
//! decides, one exchange with the card at a time, how they are configured and recovered.

pub mod algorithm;
pub mod card;
pub mod cipher;
pub mod error;
pub mod fetch;
pub mod kdf;
pub mod key;
pub mod laws;
pub mod outcomes;
pub mod procedure;
mod random;
pub mod set_manual;
pub mod set_protected;
pub mod weak;
mod wipe;

pub use crate::algorithm::{MgmAlgorithmId, MgmType};
pub use crate::error::Error;
pub use crate::key::MgmKey;
