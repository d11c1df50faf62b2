//! The view models: what goes over the wire, decoupled from the domain's
//! own shapes.

use vstd::prelude::*;
use crate::entity::Invalidity;
use crate::id::AreaOfLifeId;
use crate::status::internal_server_error;
use crate::status::INTERNAL_SERVER_ERROR;

pub mod area_of_life;
pub mod find_by_id;
pub mod thought;

verus! {

/// The envelope of a success: the data, if the verb has any, and the status.
#[derive(Debug)]
pub struct Response<T> {
    pub data: Option<T>,
    pub status: u16,
}

/// The envelope of a failure: a message for people, the status, and the
/// verb's own structured detail.
#[derive(Debug)]
pub struct Failure<D> {
    pub msg: Option<String>,
    pub status: u16,
    pub details: Option<D>,
}

impl<D> Failure<D> {
    /// Whether this is the answer to an internal failure: status 500 with no
    /// message and no detail.
    pub open spec fn is_internal(&self) -> bool {
        self.status == INTERNAL_SERVER_ERROR && self.msg.is_none() && self.details.is_none()
    }

    /// Whether this failure has the given status and message.
    pub open spec fn says(&self, status: u16, text: Seq<char>) -> bool {
        self.status == status && self.msg.is_some() && self.msg.unwrap()@ == text
    }

    /// The answer to an internal failure, which tells nothing of its cause.
    pub fn internal() -> (r: Self)
        ensures
            r.is_internal(),
    {
        Failure { msg: None, status: internal_server_error(), details: None }
    }

    /// A failure with a message and a detail.
    pub fn new(status: u16, text: &str, detail: D) -> (r: Self)
        ensures
            r.says(status, text@),
            r.details == Some(detail),
    {
        Failure { msg: Some(text.to_owned()), status, details: Some(detail) }
    }
}

/// The numbers behind a list of identifiers, in the same order.
pub open spec fn numbers(ids: Seq<AreaOfLifeId>) -> Seq<u64> {
    Seq::new(ids.len(), |i: int| ids[i].value)
}

/// Renders identifiers as the numbers that go over the wire.
pub fn to_numbers(ids: &Vec<AreaOfLifeId>) -> (r: Vec<u64>)
    ensures
        r@ == numbers(ids@),
{
    let mut out: Vec<u64> = Vec::new();
    let mut i: usize = 0;
    while i < ids.len()
        invariant
            i <= ids.len(),
            out@.len() == i,
            forall|k: int| 0 <= k < i ==> out@[k] == ids@[k].value,
        decreases ids.len() - i,
    {
        out.push(ids[i].to_u64());
        i += 1;
    }
    proof {
        assert(out@ =~= numbers(ids@));
    }
    out
}

/// The rule that a rejected title or name breaks, as it goes over the wire.
#[derive(Clone, Copy, Debug, PartialEq, Eq, Structural)]
pub enum TitleDetail {
    /// The text is empty.
    Empty,
    /// The text is longer than allowed.
    TooLong { max: usize, actual: usize },
}

/// The wire shape of a broken rule.
pub open spec fn title_detail(rule: Invalidity) -> TitleDetail {
    match rule {
        Invalidity::Empty => TitleDetail::Empty,
        Invalidity::TooLong { max, actual } => TitleDetail::TooLong { max, actual },
    }
}

/// The message that names a broken rule.
pub open spec fn title_text(rule: Invalidity) -> Seq<char> {
    match rule {
        Invalidity::Empty => "The title must not be empty"@,
        Invalidity::TooLong { .. } => "The title is too long"@,
    }
}

impl TitleDetail {
    /// Converts a broken rule to its wire shape.
    pub fn from_invalidity(rule: Invalidity) -> (r: TitleDetail)
        ensures
            r == title_detail(rule),
    {
        match rule {
            Invalidity::Empty => TitleDetail::Empty,
            Invalidity::TooLong { max, actual } => TitleDetail::TooLong { max, actual },
        }
    }
}

/// The message for a broken rule.
pub fn title_message(rule: Invalidity) -> (r: &'static str)
    ensures
        r@ == title_text(rule),
{
    match rule {
        Invalidity::Empty => "The title must not be empty",
        Invalidity::TooLong { .. } => "The title is too long",
    }
}

} // verus!
