//! The wire shapes of areas of life and of the details of failed verbs on
//! them.

use vstd::prelude::*;
use crate::entity::AreaOfLifeView;
use crate::view::TitleDetail;

verus! {

/// An area of life as it goes over the wire.
#[derive(Debug)]
pub struct AreaOfLife {
    pub id: u64,
    pub name: String,
}

/// Whether the wire shape `shown` carries exactly the area of life `a`.
pub open spec fn shows(shown: AreaOfLife, a: AreaOfLifeView) -> bool {
    shown.id == a.id && shown.name@ == a.name
}

impl AreaOfLife {
    /// Converts an area of life to its wire shape.
    pub fn from(from: crate::entity::AreaOfLife) -> (r: AreaOfLife)
        ensures
            shows(r, from@),
    {
        AreaOfLife { id: from.id.to_u64(), name: from.name }
    }
}

/// The detail of a failed creation.
#[derive(Clone, Copy, Debug, PartialEq, Eq, Structural)]
pub enum CreateError {
    /// The name breaks a rule.
    Name(TitleDetail),
}

/// The detail of a failed update.
#[derive(Clone, Copy, Debug, PartialEq, Eq, Structural)]
pub enum UpdateError {
    /// The identifier is malformed.
    Id,
    /// No area of life is stored under the identifier.
    NotFound,
    /// The name breaks a rule.
    Name(TitleDetail),
}

/// The detail of a failed reading of all areas of life: a value without content,
/// since a storage failure is all that can go wrong and is never explained.
#[derive(Clone, Copy, Debug, PartialEq, Eq, Structural)]
pub struct ReadAllError;

/// The detail of a failed deletion.
#[derive(Clone, Copy, Debug, PartialEq, Eq, Structural)]
pub enum DeleteError {
    /// The identifier is malformed.
    Id,
    /// No area of life is stored under the identifier.
    NotFound,
}

} // verus!
