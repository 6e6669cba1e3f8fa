//! Decision logic of a Nostr client's column views.
//!
//! A column shows a timeline: the follow list of some account, the whole
//! network, or a generic filter. Turning a column into a timeline may need a
//! contact-list lookup in the local note database; profile, thread and
//! mention widgets resolve user clicks into actions. The lookups and the
//! widget painting live with the application; this crate holds the data
//! model and the decisions, each with a proved contract.

pub mod column;
pub mod filter;
pub mod mention;
pub mod note;
pub mod profile;
pub mod pubkey;
pub mod thread;
pub mod timeline;
