//! The wire shapes of thoughts and of the details of failed verbs on them.

use vstd::prelude::*;
use crate::entity::ThoughtView;
use crate::view::numbers;
use crate::view::to_numbers;
use crate::view::TitleDetail;

verus! {

/// A thought as it goes over the wire.
#[derive(Debug)]
pub struct Thought {
    pub id: u64,
    pub title: String,
    pub area_of_life_ids: Vec<u64>,
}

/// Whether the wire shape `shown` carries exactly the thought `t`.
pub open spec fn shows(shown: Thought, t: ThoughtView) -> bool {
    &&& shown.id == t.id
    &&& shown.title@ == t.title
    &&& shown.area_of_life_ids@ == numbers(t.areas)
}

impl Thought {
    /// Converts a thought to its wire shape.
    pub fn from(from: crate::entity::Thought) -> (r: Thought)
        ensures
            shows(r, from@),
    {
        let ids = to_numbers(&from.area_of_life_ids);
        Thought { id: from.id.to_u64(), title: from.title, area_of_life_ids: ids }
    }

    /// The wire shape of a thought that stays with its owner.
    pub fn of(from: &crate::entity::Thought) -> (r: Thought)
        ensures
            shows(r, from@),
    {
        let ids = to_numbers(&from.area_of_life_ids);
        Thought { id: from.id.to_u64(), title: from.title.clone(), area_of_life_ids: ids }
    }
}

/// The detail of a failed creation.
#[derive(Debug)]
pub enum CreateError {
    /// An area-of-life identifier is malformed.
    AreaOfLifeId,
    /// The title breaks a rule.
    Title(TitleDetail),
    /// These areas of life, all of them, do not exist.
    AreasOfLifeNotFound(Vec<u64>),
}

/// The detail of a failed update.
#[derive(Debug)]
pub enum UpdateError {
    /// The thought's identifier is malformed.
    Id,
    /// No thought is stored under this identifier.
    NotFound(u64),
    /// An area-of-life identifier is malformed.
    AreaOfLifeId,
    /// The title breaks a rule.
    Title(TitleDetail),
    /// These areas of life, all of them, do not exist.
    AreasOfLifeNotFound(Vec<u64>),
}

/// The detail of a failed reading of all thoughts: a value without content,
/// since a storage failure is all that can go wrong and is never explained.
#[derive(Clone, Copy, Debug, PartialEq, Eq, Structural)]
pub struct ReadAllError;

/// The detail of a failed deletion.
#[derive(Clone, Copy, Debug, PartialEq, Eq, Structural)]
pub enum DeleteError {
    /// The identifier is malformed.
    Id,
    /// No thought is stored under the identifier.
    NotFound,
}

} // verus!
