//! An earlier shape of the console's error type, kept for callers that match
//! on the expected/found form of a rejected value.

use vstd::prelude::*;

verus! {

#[derive(Debug, Clone)]
pub enum Error {
    /// The server side went away; carries the transport's description.
    Disconnect(String),
    /// The operator's input was rejected.
    InvalidValue { expected: String, found: String },
    /// Anything else.
    Unknown,
}

impl Error {
    pub open spec fn is_disconnect(&self) -> bool {
        matches!(self, Error::Disconnect(_))
    }

    pub open spec fn is_invalid_value(&self) -> bool {
        matches!(self, Error::InvalidValue { .. })
    }

    pub open spec fn is_unknown(&self) -> bool {
        matches!(self, Error::Unknown)
    }
}

} // verus!
