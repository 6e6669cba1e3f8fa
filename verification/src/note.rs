//! Actions that a click on a note widget asks of the application.

use vstd::prelude::*;

use crate::pubkey::Pubkey;

verus! {

/// What a click inside a note widget asks the application to do.
#[derive(Clone, Copy, Debug)]
pub enum NoteAction {
    /// Open the profile of this account.
    Profile(Pubkey),
}

} // verus!
