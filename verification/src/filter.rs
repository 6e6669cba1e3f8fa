//! Note filters, and how far along a column's filter is.

use vstd::prelude::*;

use crate::pubkey::Pubkey;

verus! {

/// The note kind of a contact list (a follow list).
pub const CONTACT_LIST_KIND: u64 = 3;

/// A query against the note database: notes by any of `authors`, of any of
/// the listed `kinds`, and at most `limit` of them.
#[derive(Clone, Debug)]
pub struct Filter {
    pub authors: Vec<Pubkey>,
    pub kinds: Vec<u64>,
    pub limit: u64,
}

/// Whether `f` asks for the latest contact list of `pk`: the single author
/// `pk`, the contact-list note kind, one result at most.
pub open spec fn is_contact_filter(f: Filter, pk: Pubkey) -> bool {
    &&& f.authors@ == seq![pk]
    &&& f.kinds@ == seq![CONTACT_LIST_KIND]
    &&& f.limit == 1
}

impl Filter {
    /// The filter that fetches an account's latest contact list.
    pub fn contacts(pk: &Pubkey) -> (f: Filter)
        ensures
            is_contact_filter(f, *pk),
    {
        let mut authors: Vec<Pubkey> = Vec::new();
        authors.push(*pk);
        let mut kinds: Vec<u64> = Vec::new();
        kinds.push(CONTACT_LIST_KIND);
        proof {
            assert(authors@ =~= seq![*pk]);
            assert(kinds@ =~= seq![CONTACT_LIST_KIND]);
        }
        Filter { authors, kinds, limit: 1 }
    }
}

/// How far along a column's filter is: ready to run against the local
/// database, or still waiting on data from remote relays.
#[derive(Clone, Debug)]
pub enum FilterState {
    Ready(Vec<Filter>),
    NeedsRemote(Vec<Filter>),
}

impl FilterState {
    /// A filter that can run locally as it stands.
    pub fn ready(filters: Vec<Filter>) -> (s: FilterState)
        ensures
            s == FilterState::Ready(filters),
    {
        FilterState::Ready(filters)
    }

    /// A filter that must first be sent to remote relays.
    pub fn needs_remote(filters: Vec<Filter>) -> (s: FilterState)
        ensures
            s == FilterState::NeedsRemote(filters),
    {
        FilterState::NeedsRemote(filters)
    }
}

} // verus!
