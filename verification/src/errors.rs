//! The kinds of failure that the service reports, and the class of response
//! that each kind is answered with.

use vstd::prelude::*;

verus! {

/// What went wrong, as the caller is told.
#[derive(Clone, Copy, Debug, PartialEq, Eq, Structural)]
pub enum ErrorKind {
    /// The item or operation does not exist.
    NotFound,
    /// A price or increment that cannot be used.
    InvalidInput,
    /// The item is not in the state that the action needs.
    StateConflict,
    /// A cache entry is missing although the records imply that it exists.
    CacheDivergence,
    /// The persistent store could not be read or written.
    StoreFailure,
    /// The cache could not be read or written.
    CacheFailure,
    /// The ledger service could not be reached or answered unexpectedly.
    UpstreamFailure,
}

impl ErrorKind {
    /// The response status of the kind: 404 for what is absent, 400 for
    /// what the caller can correct, 500 for a failing collaborator.
    pub open spec fn status_code(self) -> u16 {
        match self {
            ErrorKind::NotFound => 404,
            ErrorKind::InvalidInput => 400,
            ErrorKind::StateConflict => 400,
            ErrorKind::CacheDivergence => 400,
            ErrorKind::StoreFailure => 500,
            ErrorKind::CacheFailure => 500,
            ErrorKind::UpstreamFailure => 500,
        }
    }

    pub fn http_status(&self) -> (code: u16)
        ensures
            code == self.status_code(),
    {
        match self {
            ErrorKind::NotFound => 404,
            ErrorKind::InvalidInput | ErrorKind::StateConflict | ErrorKind::CacheDivergence => 400,
            ErrorKind::StoreFailure | ErrorKind::CacheFailure | ErrorKind::UpstreamFailure => 500,
        }
    }
}

} // verus!
