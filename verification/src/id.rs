//! Identifiers: strictly positive integers, one typed wrapper per entity
//! kind, read from decimal text.

use vstd::prelude::*;

verus! {

/// Whether `c` is one of the ten ASCII decimal digits.
pub open spec fn is_digit(c: char) -> bool {
    '0' <= c && c <= '9'
}

/// The number that the digit `c` stands for.
pub open spec fn digit_value(c: char) -> nat {
    (c as nat - 48) as nat
}

/// Whether every character of `s` is a decimal digit.
pub open spec fn all_digits(s: Seq<char>) -> bool {
    forall|i: int| 0 <= i < s.len() ==> is_digit(#[trigger] s[i])
}

/// The number that a string of decimal digits denotes, most significant
/// digit first. The empty string denotes zero.
pub open spec fn decimal_value(s: Seq<char>) -> nat
    decreases s.len(),
{
    if s.len() == 0 {
        0
    } else {
        decimal_value(s.drop_last()) * 10 + digit_value(s.last())
    }
}

/// The identifier that `s` denotes, if any: `s` is a non-empty string of
/// decimal digits whose value is positive and fits in 64 bits.
pub open spec fn parsed_id(s: Seq<char>) -> Option<u64> {
    if s.len() > 0 && all_digits(s) && 0 < decimal_value(s) <= u64::MAX {
        Some(decimal_value(s) as u64)
    } else {
        None
    }
}

/// A prefix of a digit string never denotes more than the whole string.
pub proof fn lemma_prefix_value_bounded(s: Seq<char>, k: int)
    requires
        0 <= k <= s.len(),
    ensures
        decimal_value(s.take(k)) <= decimal_value(s),
    decreases s.len(),
{
    if k == s.len() {
        assert(s.take(k) =~= s);
    } else {
        assert(s.drop_last().take(k) =~= s.take(k));
        lemma_prefix_value_bounded(s.drop_last(), k);
    }
}

/// Reads an identifier from decimal text.
pub fn parse_id(s: &str) -> (r: Option<u64>)
    ensures
        r == parsed_id(s@),
{
    let n: usize = s.unicode_len();
    let mut acc: u64 = 0;
    let mut i: usize = 0;
    while i < n
        invariant
            i <= n,
            n == s@.len(),
            all_digits(s@.take(i as int)),
            acc == decimal_value(s@.take(i as int)),
        decreases n - i,
    {
        let c: char = s.get_char(i);
        if c < '0' || c > '9' {
            assert(!is_digit(s@[i as int]));
            return None;
        }
        let d: u64 = (c as u64) - 48;
        proof {
            assert(s@.take(i + 1).drop_last() =~= s@.take(i as int));
            assert(s@.take(i + 1).last() == c);
            assert(d == digit_value(c));
            assert(decimal_value(s@.take(i + 1)) == acc * 10 + d);
            lemma_prefix_value_bounded(s@, i + 1);
        }
        if acc > (u64::MAX - d) / 10 {
            return None;
        }
        acc = acc * 10 + d;
        i += 1;
    }
    proof {
        assert(s@.take(n as int) =~= s@);
    }
    if acc == 0 {
        None
    } else {
        Some(acc)
    }
}

/// The identifier of a thought.
#[derive(Clone, Copy, Debug, PartialEq, Eq, Structural)]
pub struct ThoughtId {
    pub value: u64,
}

impl ThoughtId {
    /// An identifier is well formed when it is strictly positive.
    pub open spec fn wf(&self) -> bool {
        self.value > 0
    }

    /// The identifier with the given number, unless the number is zero.
    pub fn new(value: u64) -> (r: Option<ThoughtId>)
        ensures
            r == (if value > 0 { Some(ThoughtId { value }) } else { None::<ThoughtId> }),
    {
        if value > 0 {
            Some(ThoughtId { value })
        } else {
            None
        }
    }

    /// Reads a thought identifier from decimal text.
    pub fn parse(s: &str) -> (r: Option<ThoughtId>)
        ensures
            r == thought_id_of(parsed_id(s@)),
            r matches Some(id) ==> id.wf(),
    {
        match parse_id(s) {
            Some(value) => Some(ThoughtId { value }),
            None => None,
        }
    }

    /// The number behind the identifier, as it goes over the wire.
    pub fn to_u64(&self) -> (r: u64)
        ensures
            r == self.value,
    {
        self.value
    }
}

/// Wraps a parsed number as a thought identifier.
pub open spec fn thought_id_of(n: Option<u64>) -> Option<ThoughtId> {
    match n {
        Some(value) => Some(ThoughtId { value }),
        None => None,
    }
}

/// The identifier of an area of life.
#[derive(Clone, Copy, Debug, PartialEq, Eq, Structural)]
pub struct AreaOfLifeId {
    pub value: u64,
}

impl AreaOfLifeId {
    /// An identifier is well formed when it is strictly positive.
    pub open spec fn wf(&self) -> bool {
        self.value > 0
    }

    /// The identifier with the given number, unless the number is zero.
    pub fn new(value: u64) -> (r: Option<AreaOfLifeId>)
        ensures
            r == (if value > 0 { Some(AreaOfLifeId { value }) } else { None::<AreaOfLifeId> }),
    {
        if value > 0 {
            Some(AreaOfLifeId { value })
        } else {
            None
        }
    }

    /// Reads an area-of-life identifier from decimal text.
    pub fn parse(s: &str) -> (r: Option<AreaOfLifeId>)
        ensures
            r == area_of_life_id_of(parsed_id(s@)),
            r matches Some(id) ==> id.wf(),
    {
        match parse_id(s) {
            Some(value) => Some(AreaOfLifeId { value }),
            None => None,
        }
    }

    /// The number behind the identifier, as it goes over the wire.
    pub fn to_u64(&self) -> (r: u64)
        ensures
            r == self.value,
    {
        self.value
    }
}

/// Wraps a parsed number as an area-of-life identifier.
pub open spec fn area_of_life_id_of(n: Option<u64>) -> Option<AreaOfLifeId> {
    match n {
        Some(value) => Some(AreaOfLifeId { value }),
        None => None,
    }
}

} // verus!
