use notedeck_views::mention::{mention_action, mention_label};
use notedeck_views::note::NoteAction;
use notedeck_views::profile::{
    copy_key_text, resolve_profile_action, shows_field, ProfileViewAction,
};
use notedeck_views::pubkey::Pubkey;
use notedeck_views::thread::{default_id_source, thread_action};

#[test]
fn note_action_wins_over_the_edit_button() {
    let pk = Pubkey::new([8u8; 32]);
    let r = resolve_profile_action(true, true, true, Some(NoteAction::Profile(pk)));
    assert!(matches!(
        r,
        Some(ProfileViewAction::Note(NoteAction::Profile(p))) if p.bytes() == &[8u8; 32]
    ));
}

#[test]
fn edit_button_resolves_to_edit_profile() {
    let r = resolve_profile_action(true, true, true, None);
    assert!(matches!(r, Some(ProfileViewAction::EditProfile)));
}

#[test]
fn edit_needs_profile_keypair_and_click() {
    assert!(resolve_profile_action(false, true, true, None).is_none());
    assert!(resolve_profile_action(true, false, true, None).is_none());
    assert!(resolve_profile_action(true, true, false, None).is_none());
}

#[test]
fn copy_key_copies_the_encoded_key() {
    let t = copy_key_text(Some("npub1example".to_string()));
    assert_eq!(t, "npub1example");
}

#[test]
fn copy_key_copies_nothing_when_encoding_failed() {
    assert_eq!(copy_key_text(None), "");
}

#[test]
fn optional_fields_show_only_when_nonempty() {
    assert!(!shows_field(&None));
    assert!(!shows_field(&Some(String::new())));
    assert!(shows_field(&Some("https://damus.io".to_string())));
}

#[test]
fn mention_label_prefixes_the_display_name() {
    assert_eq!(mention_label("alice"), "@alice");
    assert_eq!(mention_label(""), "@");
}

#[test]
fn mention_click_opens_the_profile() {
    let pk = Pubkey::new([6u8; 32]);
    let r = mention_action(&pk, true);
    assert!(matches!(r, Some(NoteAction::Profile(p)) if p.bytes() == &[6u8; 32]));
}

#[test]
fn mention_hover_asks_nothing() {
    let pk = Pubkey::new([6u8; 32]);
    assert!(mention_action(&pk, false).is_none());
}

#[test]
fn thread_hands_actions_on_only_when_ready() {
    let pk = Pubkey::new([2u8; 32]);
    let action = Some(NoteAction::Profile(pk));
    assert!(matches!(
        thread_action(true, true, action),
        Some(NoteAction::Profile(p)) if p.bytes() == &[2u8; 32]
    ));
    assert!(thread_action(false, true, action).is_none());
    assert!(thread_action(true, false, action).is_none());
    assert!(thread_action(true, true, None).is_none());
}

#[test]
fn thread_scroll_seed() {
    assert_eq!(default_id_source(), "threadscroll_threadview");
}
