//! Core state machines of a terminal music-and-todo application.
//!
//! The crate models the playback transport (elapsed-time accounting across
//! pause/resume/reload cycles), the overlay process manager, the scrollable
//! directory browser, the todo list, and the coordinator that ties them
//! together.  All timing is driven by caller-supplied wall-clock samples in
//! milliseconds; all side effects (terminal, filesystem, audio device,
//! child processes) are requested from the caller through command values.

pub mod app;
pub mod browser;
pub mod event;
pub mod key;
pub mod names;
pub mod player;
pub mod todo;

