//! Errors surfaced by the operator console.

use vstd::prelude::*;

verus! {

#[derive(Debug, Clone)]
pub enum Error {
    /// The server side went away; carries the transport's description.
    Disconnect(String),
    /// The operator's input was rejected; carries the usage text.
    InvalidValue(String),
    /// Anything else; carries a description.
    Internal(String),
}

impl Error {
    pub open spec fn is_disconnect(&self) -> bool {
        matches!(self, Error::Disconnect(_))
    }

    pub open spec fn is_invalid_value(&self) -> bool {
        matches!(self, Error::InvalidValue(_))
    }

    pub open spec fn is_internal(&self) -> bool {
        matches!(self, Error::Internal(_))
    }

    /// The human-readable text carried by the error.
    pub fn message(&self) -> (r: String)
        ensures
            r@ == match self {
                Error::Disconnect(s) => s@,
                Error::InvalidValue(s) => s@,
                Error::Internal(s) => s@,
            },
    {
        match self {
            Error::Disconnect(s) => s.clone(),
            Error::InvalidValue(s) => s.clone(),
            Error::Internal(s) => s.clone(),
        }
    }
}

} // verus!
