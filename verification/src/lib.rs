//! Client-side core for discovering the active keyboard layout from a
//! compositor: which globals to bind, when to ask a seat for its keyboard,
//! and how a transferred keymap resource becomes text.
//!
//! The core performs no I/O. A driver owns the connection, feeds each decoded
//! event to [`dispatch::dispatch`], carries out the returned action, and
//! follows [`dispatch::DispatchLoop`] through its two phases.

pub mod dispatch;
pub mod keymap;
pub mod laws;
pub mod registry;
pub mod seat;
pub mod text;
