//! The state of the user interface and the rules by which it changes.
//!
//! The interface itself, drawing and dialogs and the event loop, is not
//! here. It feeds a [`Message`] into [`update`] for everything that
//! happens, and carries out the [`Action`] that comes back.

pub mod messages;
pub mod state;
pub mod update;

pub use messages::{Message, PickedFile};
pub use state::{status_tone, AppState, StatusTone};
pub use update::{commit_edit, default_display_name, update, Action};
