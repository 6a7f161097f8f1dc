//! Event-coordination core of a terminal chat client.
//!
//! The crate holds the state that the screen shows (the line being typed and
//! the message log) and the rules by which keyboard events, notifications and
//! the outcome of a submitted line change it. Reading the terminal, drawing
//! and running the command interpreter are the caller's business.

pub mod text;
pub mod message;
pub mod event;
pub mod worker;
pub mod tui;
pub mod laws;

pub use event::{Action, Event, KeyCode};
pub use message::{Color, Entry, Field, StdoutMsg};
pub use tui::{Tui, UiView};
