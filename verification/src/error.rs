//! Protocol-level error taxonomy.
//!
//! A `CodingError` marks a malformed or oversized frame, a
//! `SerializationError` a payload that does not match the expected shape, and
//! an `EncryptionError` a failed key operation or an AEAD authentication
//! failure.  All three are local to one frame: a transport loop drops the
//! frame and carries on.

use vstd::prelude::*;

verus! {

#[derive(Debug, Clone)]
pub enum Error {
    EncryptionError(String),
    SerializationError(String),
    CodingError(String),
}

impl Error {
    /// Which class of failure this is, without the attached text.
    pub open spec fn is_coding(&self) -> bool {
        matches!(self, Error::CodingError(_))
    }

    pub open spec fn is_serialization(&self) -> bool {
        matches!(self, Error::SerializationError(_))
    }

    pub open spec fn is_encryption(&self) -> bool {
        matches!(self, Error::EncryptionError(_))
    }

    /// The human-readable text carried by the error.
    pub fn message(&self) -> (r: String)
        ensures
            r@ == match self {
                Error::EncryptionError(s) => s@,
                Error::SerializationError(s) => s@,
                Error::CodingError(s) => s@,
            },
    {
        match self {
            Error::EncryptionError(s) => s.clone(),
            Error::SerializationError(s) => s.clone(),
            Error::CodingError(s) => s.clone(),
        }
    }
}

} // verus!
