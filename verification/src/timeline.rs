//! A column's timeline: its kind and the filter that feeds it.

use vstd::prelude::*;

use crate::column::ColumnKind;
use crate::filter::FilterState;

verus! {

/// The timeline a column shows.
#[derive(Debug)]
pub struct Timeline {
    pub kind: ColumnKind,
    pub filter: FilterState,
}

impl Timeline {
    pub fn new(kind: ColumnKind, filter: FilterState) -> (t: Timeline)
        ensures
            t.kind == kind,
            t.filter == filter,
    {
        Timeline { kind, filter }
    }
}

} // verus!
