//! Errors of the wire-format helpers.

use vstd::prelude::*;

verus! {

#[derive(Debug)]
pub enum BitcoinMessageError {
    /// command name too long
    CommandNameTooLong,
    /// command name has to be an ASCII string
    CommandNameNonAscii,
    /// an input buffer ended before the value it should hold
    SerializationError(String),
    /// payload is larger than the maximum size
    PayloadTooBig,
    /// bytes that should spell text did not decode
    Utf8DeserializationError(String),
    /// unknown command name
    CommandNameUnknown(String),
    /// checksum mismatch
    ChecksumMismatch,
}

} // verus!
