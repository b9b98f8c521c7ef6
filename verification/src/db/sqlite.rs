//! Entities that can be selected from a table.
use vstd::prelude::*;
use crate::common::{Empty, Voting};

verus! {

/// An entity that a query yields, with a blank value where it yields none.
pub trait EmptySelectable: Empty {
    /// What a query for one entity ends with: the entity that was found, or
    /// the blank one.
    fn query_voting(found: Option<Self>) -> (r: Self)
        ensures
            (match found {
                Some(v) => r == v,
                None => r.is_blank(),
            }),
    {
        match found {
            Some(v) => v,
            None => Self::empty(),
        }
    }
}

impl EmptySelectable for Voting {

}

} // verus!
