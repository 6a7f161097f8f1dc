//! Events that reach the dispatch loop, and what the loop's caller is asked
//! to do after each.

use vstd::prelude::*;
use crate::message::{Entry, StdoutMsg};

verus! {

/// The key of a key press, as far as the input line cares.
#[derive(Clone, Copy, Debug, PartialEq, Eq, Structural)]
pub enum KeyCode {
    /// A printable character.
    Char(char),
    Backspace,
    Enter,
    /// Any other key.
    Other,
}

/// One occurrence delivered to the dispatch loop.
#[derive(Clone, Debug, PartialEq, Eq)]
pub enum Event {
    /// A key was pressed.
    Key(KeyCode),
    /// The user asked to leave (Ctrl-C).
    Interrupt,
    /// A message to show, from the connection worker or from the loop itself.
    User(StdoutMsg),
    /// The event source was told to stop.
    Quit,
}

/// What an event is, with the message of a notification taken by its view.
pub ghost enum EventView {
    Key(KeyCode),
    Interrupt,
    User(Entry),
    Quit,
}

impl View for Event {
    type V = EventView;

    open spec fn view(&self) -> EventView {
        match *self {
            Event::Key(code) => EventView::Key(code),
            Event::Interrupt => EventView::Interrupt,
            Event::User(msg) => EventView::User(msg@),
            Event::Quit => EventView::Quit,
        }
    }
}

/// What the caller of the dispatch loop does after an event was handled.
#[derive(Clone, Copy, Debug, PartialEq, Eq, Structural)]
pub enum Action {
    /// Nothing; wait for the next event.
    Continue,
    /// Run the command interpreter on the input line and report its result.
    Interpret,
    /// Tell the event source to stop, and leave the loop.
    Shutdown,
    /// Leave the loop.
    Stop,
}

impl Action {
    /// Whether the loop ends with this action.
    pub open spec fn terminates(self) -> bool {
        self == Action::Shutdown || self == Action::Stop
    }

    /// Whether the loop ends with this action.
    pub fn is_terminal(self) -> (r: bool)
        ensures
            r == self.terminates(),
    {
        match self {
            Action::Shutdown => true,
            Action::Stop => true,
            _ => false,
        }
    }
}

} // verus!
