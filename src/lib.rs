//! Client library for a remote note-synchronisation service.
//!
//! The library holds the service's rules: the note model, the session's
//! token cache, the shape of every request, and the two multi-step
//! protocols (trash-then-delete and cursor pagination) as state machines.
//! Moving bytes over HTTP is left to the caller, who performs each
//! request the library plans and hands back what the service answered.
pub mod error;
pub mod note;
pub mod text;
pub mod client;
pub mod removal;
pub mod pager;

pub use error::{Error, Operation, Result};
pub use note::{Note, Timestamp};
pub use client::{Simplenote, Method, Body, Request, Reply, TokenStep, note_url, accept_note, accept_removal, AUTH_URL, DATA_URL, INDEX_URL, NOT_FOUND};
pub use removal::{Action, Removal, Stage};
pub use pager::{Filter, NotesPage, Pager, NOTE_LIST_LENGTH};
