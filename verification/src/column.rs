//! What kind of column a view shows, and how a column becomes a timeline.
//!
//! Turning a contact-list column into a timeline needs the account's
//! contact list from the note database. The database lives with the
//! application, so the step happens in two halves: `ColumnKind::into_timeline`
//! decides everything that needs no database and otherwise names the query
//! to run, and `contact_list_timeline` finishes the decision from what the
//! query came back with.

use vstd::prelude::*;

use crate::filter::{is_contact_filter, Filter, FilterState};
use crate::pubkey::Pubkey;
use crate::timeline::Timeline;

verus! {

/// Where a column's account comes from: named outright, or whoever authors
/// the deck.
#[derive(Clone, Copy, Debug)]
pub enum PubkeySource {
    Explicit(Pubkey),
    DeckAuthor,
}

/// The account `src` stands for, once the deck author's key is known.
pub open spec fn resolved_pubkey(src: PubkeySource, default_user: Option<Pubkey>) -> Option<Pubkey> {
    match src {
        PubkeySource::Explicit(pk) => Some(pk),
        PubkeySource::DeckAuthor => default_user,
    }
}

impl PubkeySource {
    /// The account this source stands for. A `DeckAuthor` source has no
    /// account when the deck has no author.
    pub fn resolve(&self, default_user: Option<Pubkey>) -> (r: Option<Pubkey>)
        ensures
            r == resolved_pubkey(*self, default_user),
    {
        match self {
            PubkeySource::Explicit(pk) => Some(*pk),
            PubkeySource::DeckAuthor => default_user,
        }
    }
}

/// A list column; so far the only list is a contact (follow) list.
#[derive(Clone, Copy, Debug)]
pub enum ListKind {
    Contact(PubkeySource),
}

/// What a column shows: some account's contact list, the whole network, or
/// a generic filter.
#[derive(Clone, Copy, Debug)]
pub enum ColumnKind {
    List(ListKind),
    Universe,
    Generic,
}

/// The half of turning a column into a timeline that needs no database:
/// the timeline itself, no timeline at all, or the query to run first.
#[derive(Debug)]
pub enum TimelinePlan {
    Timeline(Timeline),
    NoTimeline,
    FetchContactList { source: PubkeySource, filter: Filter },
}

/// What the planned contact-list query came back with.
#[derive(Debug)]
pub enum ContactListResult {
    /// The database holds no contact-list note for the account.
    NoResults,
    /// It holds one, but the contact list in it is empty.
    EmptyContactList,
    /// It holds one, and the application built this timeline from it.
    Contacts(Timeline),
    /// The note could not be turned into a timeline for any other reason.
    Failed,
}

impl ColumnKind {
    /// The column's title.
    pub fn display_str(&self) -> (s: &'static str)
        ensures
            match *self {
                ColumnKind::List(ListKind::Contact(_)) => s@ == "Contacts"@,
                ColumnKind::Generic => s@ == "Timeline"@,
                ColumnKind::Universe => s@ == "Universe"@,
            },
    {
        match self {
            ColumnKind::List(ListKind::Contact(_)) => "Contacts",
            ColumnKind::Generic => "Timeline",
            ColumnKind::Universe => "Universe",
        }
    }

    /// The column over `pk`'s contact list.
    pub fn contact_list(pk: PubkeySource) -> (c: Self)
        ensures
            c == ColumnKind::List(ListKind::Contact(pk)),
    {
        ColumnKind::List(ListKind::Contact(pk))
    }

    /// Begins turning this column into a timeline.
    ///
    /// A universe column is a timeline over an empty, already-ready filter
    /// list, and a generic column gives no timeline. A contact-list column
    /// needs its account's contact list from the note database: the plan
    /// names the query, and `contact_list_timeline` finishes once it has
    /// run. A `DeckAuthor` column on a deck without an author gives no
    /// timeline either.
    pub fn into_timeline(self, default_user: Option<Pubkey>) -> (plan: TimelinePlan)
        ensures
            match self {
                ColumnKind::Universe => {
                    &&& plan matches TimelinePlan::Timeline(t)
                    &&& t.kind is Universe
                    &&& t.filter matches FilterState::Ready(fs) && fs@ == Seq::<Filter>::empty()
                },
                ColumnKind::Generic => plan is NoTimeline,
                ColumnKind::List(ListKind::Contact(src)) => match resolved_pubkey(src, default_user) {
                    Some(pk) => {
                        &&& plan matches TimelinePlan::FetchContactList { source, filter }
                        &&& source == src
                        &&& is_contact_filter(filter, pk)
                    },
                    None => plan is NoTimeline,
                },
            },
    {
        match self {
            ColumnKind::Universe => TimelinePlan::Timeline(Timeline::new(
                ColumnKind::Universe,
                FilterState::ready(Vec::new()),
            )),

            ColumnKind::Generic => TimelinePlan::NoTimeline,

            ColumnKind::List(ListKind::Contact(src)) => match src.resolve(default_user) {
                Some(pk) => TimelinePlan::FetchContactList {
                    source: src,
                    filter: Filter::contacts(&pk),
                },
                None => TimelinePlan::NoTimeline,
            },
        }
    }
}

/// Finishes turning a contact-list column into a timeline, from what the
/// planned query came back with.
///
/// No contact-list note, or one whose contact list is empty, gives a
/// timeline that keeps the query and waits on remote relays to fill it. A
/// fetched contact list gives the timeline built from it, and any other
/// failure gives none.
pub fn contact_list_timeline(
    source: PubkeySource,
    filter: Filter,
    fetched: ContactListResult,
) -> (r: Option<Timeline>)
    ensures
        match fetched {
            ContactListResult::NoResults | ContactListResult::EmptyContactList => {
                &&& r matches Some(t)
                &&& t.kind == ColumnKind::List(ListKind::Contact(source))
                &&& t.filter matches FilterState::NeedsRemote(fs) && fs@ == seq![filter]
            },
            ContactListResult::Contacts(t) => r == Some(t),
            ContactListResult::Failed => r is None,
        },
{
    match fetched {
        ContactListResult::NoResults | ContactListResult::EmptyContactList => {
            let filters: Vec<Filter> = vec![filter];
            proof {
                assert(filters@ =~= seq![filter]);
            }
            Some(Timeline::new(
                ColumnKind::contact_list(source),
                FilterState::needs_remote(filters),
            ))
        },
        ContactListResult::Contacts(t) => Some(t),
        ContactListResult::Failed => None,
    }
}

} // verus!
