//! A single-document plain-text editor core: one buffer with cursor and
//! selection, and a controller that serialises user intents into a single
//! mutable session state under a strict update protocol.
//!
//! Long-running load/save work is never performed here: the controller
//! returns a [`message::Command`] describing the one asynchronous I/O
//! operation to start, and its completion re-enters [`app::Editor::update`]
//! as an ordinary [`message::Message`]. A single busy flag guards the one
//! slot for an in-flight command, so no two load/save operations ever race
//! against the shared document and file-path state; [`laws`] proves that,
//! together with the dirty-flag guarantees, of every reachable state.
//!
//! [`view`] derives a render-able view model as plain values; turning it
//! into pixels, and performing the commands, is a host's business.

pub mod app;
pub mod buffer;
pub mod error;
pub mod laws;
pub mod message;
pub mod theme;
pub mod view;
