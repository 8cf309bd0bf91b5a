//! Serialization capability for wire messages.

use vstd::prelude::*;

use crate::errors::BitcoinMessageError;

verus! {

/// Trait defining a data structure that can be serialized to protocol
/// "wire" data without any outside input.
pub trait RawMessage: Sized {
    /// Performs the serialization.
    fn to_bytes(&self) -> Result<Vec<u8>, BitcoinMessageError>;

    /// Constructs `Self` from binary data.
    fn from_bytes(data: &Vec<u8>) -> Result<Box<Self>, BitcoinMessageError>;
}

} // verus!
