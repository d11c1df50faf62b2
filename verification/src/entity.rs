//! The entity model: thoughts and areas of life, the rule that their titles
//! and names obey, and the payloads that a repository keeps under an
//! identifier.

use vstd::prelude::*;
use crate::id::AreaOfLifeId;
use crate::id::ThoughtId;

verus! {

/// The longest title or name, in characters.
pub const MAX_TITLE_LEN: usize = 80;

/// The rule that a rejected title or name breaks.
#[derive(Clone, Copy, Debug, PartialEq, Eq, Structural)]
pub enum Invalidity {
    /// The text is empty.
    Empty,
    /// The text has `actual` characters, more than the `max` allowed.
    TooLong { max: usize, actual: usize },
}

/// The verdict on a title or name: accepted, or the rule it breaks.
pub open spec fn title_check(t: Seq<char>) -> Result<(), Invalidity> {
    if t.len() == 0 {
        Err(Invalidity::Empty)
    } else if t.len() > MAX_TITLE_LEN {
        Err(Invalidity::TooLong { max: MAX_TITLE_LEN, actual: t.len() as usize })
    } else {
        Ok(())
    }
}

/// A title or name is valid when it is non-empty and within the maximum length.
pub open spec fn valid_title(t: Seq<char>) -> bool {
    0 < t.len() <= MAX_TITLE_LEN
}

/// Checks a title or name against the length rule.
pub fn validate_title(t: &str) -> (r: Result<(), Invalidity>)
    ensures
        r == title_check(t@),
        r.is_ok() <==> valid_title(t@),
{
    let n: usize = t.unicode_len();
    if n == 0 {
        Err(Invalidity::Empty)
    } else if n > MAX_TITLE_LEN {
        Err(Invalidity::TooLong { max: MAX_TITLE_LEN, actual: n })
    } else {
        Ok(())
    }
}

/// What a repository keeps under an identifier. The view is the payload's
/// mathematical value; a repository hands out independent copies.
pub trait Payload: View + Sized {
    /// Whether a payload with this view obeys the entity's rules.
    spec fn valid_view(v: Self::V) -> bool;

    /// An independent copy with the same view.
    fn duplicate(&self) -> (r: Self)
        ensures
            r@ == self@,
    ;
}

/// The mathematical value of a thought's payload.
pub ghost struct ThoughtDataView {
    pub title: Seq<char>,
    pub areas: Seq<AreaOfLifeId>,
}

/// A thought without its identifier: its title and the areas of life that
/// it is tagged with.
#[derive(Debug)]
pub struct ThoughtData {
    pub title: String,
    pub area_of_life_ids: Vec<AreaOfLifeId>,
}

impl View for ThoughtData {
    type V = ThoughtDataView;

    open spec fn view(&self) -> ThoughtDataView {
        ThoughtDataView { title: self.title@, areas: self.area_of_life_ids@ }
    }
}

/// Whether `ids` is a set of well-formed identifiers: none is zero and none
/// occurs twice.
pub open spec fn is_id_set(ids: Seq<AreaOfLifeId>) -> bool {
    &&& ids.no_duplicates()
    &&& forall|i: int| 0 <= i < ids.len() ==> (#[trigger] ids[i]).wf()
}

/// An independent copy of a list of identifiers.
pub fn duplicate_ids(ids: &Vec<AreaOfLifeId>) -> (r: Vec<AreaOfLifeId>)
    ensures
        r@ == ids@,
{
    let mut out: Vec<AreaOfLifeId> = Vec::new();
    let mut i: usize = 0;
    while i < ids.len()
        invariant
            i <= ids.len(),
            out@ == ids@.take(i as int),
        decreases ids.len() - i,
    {
        out.push(ids[i]);
        proof {
            assert(ids@.take(i + 1) =~= ids@.take(i as int).push(ids@[i as int]));
        }
        i += 1;
    }
    proof {
        assert(ids@.take(ids.len() as int) =~= ids@);
    }
    out
}

impl Payload for ThoughtData {
    open spec fn valid_view(v: ThoughtDataView) -> bool {
        valid_title(v.title) && is_id_set(v.areas)
    }

    fn duplicate(&self) -> (r: ThoughtData) {
        ThoughtData {
            title: self.title.clone(),
            area_of_life_ids: duplicate_ids(&self.area_of_life_ids),
        }
    }
}

/// An area of life without its identifier: its name.
#[derive(Debug)]
pub struct AreaOfLifeData {
    pub name: String,
}

impl View for AreaOfLifeData {
    type V = Seq<char>;

    open spec fn view(&self) -> Seq<char> {
        self.name@
    }
}

impl Payload for AreaOfLifeData {
    open spec fn valid_view(v: Seq<char>) -> bool {
        valid_title(v)
    }

    fn duplicate(&self) -> (r: AreaOfLifeData) {
        AreaOfLifeData { name: self.name.clone() }
    }
}

/// The mathematical value of a thought.
pub ghost struct ThoughtView {
    pub id: u64,
    pub title: Seq<char>,
    pub areas: Seq<AreaOfLifeId>,
}

/// A short note, optionally tagged with areas of life.
#[derive(Debug)]
pub struct Thought {
    pub id: ThoughtId,
    pub title: String,
    pub area_of_life_ids: Vec<AreaOfLifeId>,
}

impl View for Thought {
    type V = ThoughtView;

    open spec fn view(&self) -> ThoughtView {
        ThoughtView { id: self.id.value, title: self.title@, areas: self.area_of_life_ids@ }
    }
}

/// The thought that a payload becomes under the identifier `id`.
pub open spec fn thought_of(id: u64, data: ThoughtDataView) -> ThoughtView {
    ThoughtView { id, title: data.title, areas: data.areas }
}

impl Thought {
    /// A thought is well formed when its identifier is positive, its title
    /// is valid and its areas of life form a set.
    pub open spec fn wf(&self) -> bool {
        self.id.wf() && valid_title(self.title@) && is_id_set(self.area_of_life_ids@)
    }

    /// Joins an identifier and a payload into a thought.
    pub fn from_parts(id: ThoughtId, data: ThoughtData) -> (r: Thought)
        ensures
            r@ == thought_of(id.value, data@),
            r.id == id,
    {
        Thought { id, title: data.title, area_of_life_ids: data.area_of_life_ids }
    }
}

/// The mathematical value of an area of life.
pub ghost struct AreaOfLifeView {
    pub id: u64,
    pub name: Seq<char>,
}

/// A category that thoughts can be tagged with.
#[derive(Debug)]
pub struct AreaOfLife {
    pub id: AreaOfLifeId,
    pub name: String,
}

impl View for AreaOfLife {
    type V = AreaOfLifeView;

    open spec fn view(&self) -> AreaOfLifeView {
        AreaOfLifeView { id: self.id.value, name: self.name@ }
    }
}

/// The area of life that a payload becomes under the identifier `id`.
pub open spec fn area_of_life_of(id: u64, name: Seq<char>) -> AreaOfLifeView {
    AreaOfLifeView { id, name }
}

impl AreaOfLife {
    /// An area of life is well formed when its identifier is positive and
    /// its name is valid.
    pub open spec fn wf(&self) -> bool {
        self.id.wf() && valid_title(self.name@)
    }

    /// Joins an identifier and a payload into an area of life.
    pub fn from_parts(id: AreaOfLifeId, data: AreaOfLifeData) -> (r: AreaOfLife)
        ensures
            r@ == area_of_life_of(id.value, data@),
            r.id == id,
    {
        AreaOfLife { id, name: data.name }
    }
}

} // verus!
