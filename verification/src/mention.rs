//! Decisions of the inline mention widget.

use vstd::prelude::*;

use crate::note::NoteAction;
use crate::pubkey::Pubkey;

verus! {

/// The label text of an inline mention: `@` followed by the account's
/// display name.
pub fn mention_label(display_name: &str) -> (label: String)
    ensures
        label@ == "@"@ + display_name@,
{
    let prefix = String::from_str("@");
    prefix.concat(display_name)
}

/// The action a click on a mention asks for: opening the profile of the
/// mentioned account. Hovering or doing nothing asks nothing.
pub fn mention_action(pk: &Pubkey, clicked: bool) -> (r: Option<NoteAction>)
    ensures
        if clicked {
            r == Some(NoteAction::Profile(*pk))
        } else {
            r is None
        },
{
    if clicked {
        Some(NoteAction::Profile(*pk))
    } else {
        None
    }
}

} // verus!
