//! Time-of-day reminders: the form and list state machine of the terminal
//! interface, the validation of drafts, and the rule by which the background
//! watcher notifies each reminder at most once.

pub mod app_state;
mod clock;
pub mod input;
pub mod reminder;
pub mod text;
pub mod validation;
pub mod watcher;
