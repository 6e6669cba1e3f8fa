//! Decisions of the thread view.

use vstd::prelude::*;

use crate::note::NoteAction;

verus! {

/// The seed of the thread view's scroll area when no other is chosen.
pub fn default_id_source() -> (s: &'static str)
    ensures
        s@ == "threadscroll_threadview"@,
{
    "threadscroll_threadview"
}

/// Resolves one frame of the thread view into at most one action.
///
/// Only a thread whose root note was found and whose timeline is already
/// cached can hand an action on; otherwise the frame shows a notice and
/// asks nothing.
pub fn thread_action(
    root_found: bool,
    timeline_present: bool,
    note_action: Option<NoteAction>,
) -> (r: Option<NoteAction>)
    ensures
        r == if root_found && timeline_present {
            note_action
        } else {
            None::<NoteAction>
        },
{
    if root_found && timeline_present {
        note_action
    } else {
        None
    }
}

} // verus!
