//! Errors raised by the registry, scheduler and persistence layer, mapped to
//! caller-visible failures without crashing the serving loop.

use vstd::prelude::*;

verus! {

#[derive(Debug, Clone)]
pub enum Error {
    /// An unexpected collaborator failure: fatal to the current request, not
    /// to the process.
    Internal(String),
    /// The named agent or job is not known.
    NotFound(String),
    /// The caller's input is malformed.
    InvalidArgument(String),
    /// The caller has not authenticated.
    AuthenticationRequired,
    /// The caller may not do this.
    PermissionDenied(String),
    /// The operation contradicts existing state.
    Conflict(String),
}

impl Error {
    pub open spec fn is_internal(&self) -> bool {
        matches!(self, Error::Internal(_))
    }

    pub open spec fn is_not_found(&self) -> bool {
        matches!(self, Error::NotFound(_))
    }

    pub open spec fn is_invalid_argument(&self) -> bool {
        matches!(self, Error::InvalidArgument(_))
    }

    pub open spec fn is_conflict(&self) -> bool {
        matches!(self, Error::Conflict(_))
    }

    /// The HTTP status an error surfaces as.
    pub open spec fn spec_http_status(&self) -> u16 {
        match self {
            Error::InvalidArgument(_) => 400,
            Error::AuthenticationRequired => 401,
            Error::PermissionDenied(_) => 403,
            Error::NotFound(_) => 404,
            Error::Conflict(_) => 409,
            Error::Internal(_) => 500,
        }
    }

    /// Map an error to the HTTP status it surfaces as.
    pub fn http_status(&self) -> (r: u16)
        ensures
            r == self.spec_http_status(),
    {
        match self {
            Error::InvalidArgument(_) => 400,
            Error::AuthenticationRequired => 401,
            Error::PermissionDenied(_) => 403,
            Error::NotFound(_) => 404,
            Error::Conflict(_) => 409,
            Error::Internal(_) => 500,
        }
    }

    /// The human-readable text carried by the error.
    pub fn message(&self) -> (r: String)
        ensures
            r@ == match self {
                Error::Internal(s) => s@,
                Error::NotFound(s) => s@,
                Error::InvalidArgument(s) => s@,
                Error::AuthenticationRequired => "authentication required"@,
                Error::PermissionDenied(s) => s@,
                Error::Conflict(s) => s@,
            },
    {
        match self {
            Error::Internal(s) => s.clone(),
            Error::NotFound(s) => s.clone(),
            Error::InvalidArgument(s) => s.clone(),
            Error::AuthenticationRequired => String::from_str("authentication required"),
            Error::PermissionDenied(s) => s.clone(),
            Error::Conflict(s) => s.clone(),
        }
    }
}

} // verus!
