//! Decisions of the profile view: which action a frame resolves to, what
//! the copy-key button copies, and which optional fields are shown.

use vstd::prelude::*;

use crate::note::NoteAction;

verus! {

/// What interacting with a profile view asks of the application.
#[derive(Clone, Copy, Debug)]
pub enum ProfileViewAction {
    /// Open the profile editor.
    EditProfile,
    /// An action on a note of the profile's timeline.
    Note(NoteAction),
}

/// Resolves one frame of the profile view into at most one action.
///
/// An action coming out of the profile's timeline wins over the edit
/// button; the edit button counts only when the profile was found in the
/// database and the viewer holds the account's full keypair, since only
/// then is the button shown at all.
pub fn resolve_profile_action(
    profile_found: bool,
    has_full_keypair: bool,
    edit_clicked: bool,
    note_action: Option<NoteAction>,
) -> (r: Option<ProfileViewAction>)
    ensures
        match note_action {
            Some(na) => r == Some(ProfileViewAction::Note(na)),
            None => if profile_found && has_full_keypair && edit_clicked {
                r == Some(ProfileViewAction::EditProfile)
            } else {
                r is None
            },
        },
{
    match note_action {
        Some(na) => Some(ProfileViewAction::Note(na)),
        None => {
            if profile_found && has_full_keypair && edit_clicked {
                Some(ProfileViewAction::EditProfile)
            } else {
                None
            }
        },
    }
}

/// The text the copy-key button puts on the clipboard: the key's encoded
/// form when the encoding succeeded, the empty string when it failed.
pub fn copy_key_text(bech: Option<String>) -> (t: String)
    ensures
        match bech {
            Some(s) => t@ == s@,
            None => t@ == Seq::<char>::empty(),
        },
{
    match bech {
        Some(s) => s,
        None => String::new(),
    }
}

/// Whether an optional profile field (the website, the lightning address)
/// is shown: only when it is present and nonempty.
pub fn shows_field(field: &Option<String>) -> (b: bool)
    ensures
        b == (field matches Some(s) && s@.len() > 0),
{
    match field {
        Some(s) => !s.as_str().is_empty(),
        None => false,
    }
}

} // verus!
