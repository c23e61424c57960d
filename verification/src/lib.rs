//! `pasta` keeps a history of what was copied to the clipboard.
//!
//! The crate holds the rules of the clipboard manager, each with a contract
//! that Verus proves:
//!
//! - [`history`]: the append-only log of clips and its two queries;
//! - [`poller`]: one polling cycle, which stores the clipboard text unless the
//!   latest clip already holds it;
//! - [`event`] and [`display`]: the state of the terminal view and its
//!   reaction to input;
//! - [`commands`]: which of the two modes a command line selects.
//!
//! Reading the clipboard, the database and the terminal is left to
//! the program around the library, which hands in plain values.

pub mod commands;
pub mod display;
pub mod event;
pub mod history;
pub mod poller;

pub use display::App;
pub use history::{Clip, History, PasteboardItem};
