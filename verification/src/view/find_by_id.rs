//! The structured detail of a failed search for a thought.

use vstd::prelude::*;
use crate::usecase::thought::FindByIdError;

verus! {

/// What went wrong, as far as the caller may know.
#[derive(Clone, Copy, Debug, PartialEq, Eq, Structural)]
pub enum Error {
    /// The identifier is malformed.
    Id,
    /// No thought is stored under the identifier.
    NotFound,
}

/// The detail that stands for a use-case error; a storage failure has none.
pub open spec fn detail_of(from: FindByIdError) -> Result<Error, ()> {
    match from {
        FindByIdError::Id => Ok(Error::Id),
        FindByIdError::NotFound => Ok(Error::NotFound),
        FindByIdError::Repo => Err(()),
    }
}

impl Error {
    /// Converts a use-case error to its detail, where it may be shown.
    pub fn try_from(from: FindByIdError) -> (r: Result<Error, ()>)
        ensures
            r == detail_of(from),
    {
        match from {
            FindByIdError::Id => Ok(Error::Id),
            FindByIdError::NotFound => Ok(Error::NotFound),
            FindByIdError::Repo => Err(()),
        }
    }
}

} // verus!
