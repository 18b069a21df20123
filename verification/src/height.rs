//! Protocol heights: a (revision number, revision height) pair, totally
//! ordered within a revision.  The all-zero value is a sentinel meaning
//! "unknown"; it is never a real chain height.

use vstd::prelude::*;

verus! {

/// A block height as the protocol engine sees it.
#[derive(Clone, Copy, Debug, PartialEq, Eq, Structural)]
pub struct Height {
    pub revision_number: u64,
    pub revision_height: u64,
}

impl Height {
    /// The sentinel "unknown/zero" height.
    pub fn zero() -> (r: Height)
        ensures
            r.revision_number == 0,
            r.revision_height == 0,
    {
        Height { revision_number: 0, revision_height: 0 }
    }

    /// Wraps a bare block number of a chain that has no revision concept.
    pub fn from_noncosmos_height(number: u64) -> (r: Height)
        ensures
            r.revision_number == 0,
            r.revision_height == number,
    {
        Height { revision_number: 0, revision_height: number }
    }

    pub open spec fn is_zero_spec(self) -> bool {
        self.revision_number == 0 && self.revision_height == 0
    }

    /// True exactly on the sentinel value.
    pub fn is_zero(&self) -> (r: bool)
        ensures
            r == self.is_zero_spec(),
    {
        self.revision_number == 0 && self.revision_height == 0
    }
}

/// A height qualifier on a query: the newest state, or the state at one
/// specific height.
#[derive(Clone, Copy, Debug, PartialEq, Eq, Structural)]
pub enum QueryHeight {
    Latest,
    Specific(Height),
}

/// A height bound on an event query: exactly one height, or everything up
/// to one.
#[derive(Clone, Copy, Debug, PartialEq, Eq, Structural)]
pub enum Qualified {
    Equal(QueryHeight),
    SmallerEqual(QueryHeight),
}

/// The block a height-qualified call is scoped to: `None` means the latest
/// block.
pub fn block_for_query_height(height: QueryHeight) -> (r: Option<u64>)
    ensures
        height is Latest <==> r is None,
        height matches QueryHeight::Specific(h) ==> r == Some(h.revision_height),
{
    match height {
        QueryHeight::Latest => None,
        QueryHeight::Specific(h) => Some(h.revision_height),
    }
}

/// The inclusive block range a qualified event query covers, as
/// (from, to); `None` leaves that end unbounded.
pub fn block_range_for(height: Qualified) -> (r: (Option<u64>, Option<u64>))
    ensures
        height matches Qualified::Equal(QueryHeight::Specific(h)) ==> r == (
            Some(h.revision_height),
            Some(h.revision_height),
        ),
        height matches Qualified::SmallerEqual(QueryHeight::Specific(h)) ==> r == (
            None::<u64>,
            Some(h.revision_height),
        ),
        height matches Qualified::Equal(QueryHeight::Latest) ==> r == (
            None::<u64>,
            None::<u64>,
        ),
        height matches Qualified::SmallerEqual(QueryHeight::Latest) ==> r == (
            None::<u64>,
            None::<u64>,
        ),
{
    match height {
        Qualified::Equal(QueryHeight::Specific(h)) => {
            (Some(h.revision_height), Some(h.revision_height))
        },
        Qualified::SmallerEqual(QueryHeight::Specific(h)) => (None, Some(h.revision_height)),
        Qualified::Equal(QueryHeight::Latest) => (None, None),
        Qualified::SmallerEqual(QueryHeight::Latest) => (None, None),
    }
}

} // verus!
