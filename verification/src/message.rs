//! Entries of the message log and their colours.

use vstd::prelude::*;

verus! {

/// A terminal colour. `Reset` stands for "whatever the terminal has".
#[derive(Clone, Copy, Debug, PartialEq, Eq, Structural)]
pub enum Color {
    Reset,
    Black,
    DarkGrey,
    Red,
    DarkRed,
    Green,
    DarkGreen,
    Yellow,
    DarkYellow,
    Blue,
    DarkBlue,
    Magenta,
    DarkMagenta,
    Cyan,
    DarkCyan,
    White,
    Grey,
    Rgb { r: u8, g: u8, b: u8 },
    AnsiValue(u8),
}

/// What a log entry is: its text and its two colours.
pub ghost struct Entry {
    pub text: Seq<char>,
    pub foreground: Color,
    pub background: Color,
}

impl Entry {
    /// The entry with the given text and no colours of its own.
    pub open spec fn plain(text: Seq<char>) -> Entry {
        Entry { text, foreground: Color::Reset, background: Color::Reset }
    }
}

/// The value of one named field of a log entry, as a renderer takes it.
#[derive(Clone, Debug, PartialEq, Eq)]
pub enum Field {
    Text(String),
    Color(Color),
}

/// One line of the message log, as it is shown to the user.
#[derive(Clone, Debug, PartialEq, Eq)]
pub struct StdoutMsg {
    pub msg: String,
    pub foreground: Color,
    pub background: Color,
}

impl View for StdoutMsg {
    type V = Entry;

    open spec fn view(&self) -> Entry {
        Entry { text: self.msg@, foreground: self.foreground, background: self.background }
    }
}

impl StdoutMsg {
    /// A message in the terminal's own colours.
    pub fn new(msg: String) -> (r: Self)
        ensures
            r@ == Entry::plain(msg@),
    {
        Self { msg, foreground: Color::Reset, background: Color::Reset }
    }

    /// A message with a foreground colour; the background stays the terminal's.
    pub fn with_foreground(msg: String, foreground: Color) -> (r: Self)
        ensures
            r@ == (Entry { text: msg@, foreground, background: Color::Reset }),
    {
        Self { msg, foreground, background: Color::Reset }
    }

    /// A message with a background colour; the foreground stays the terminal's.
    pub fn with_background(msg: String, background: Color) -> (r: Self)
        ensures
            r@ == (Entry { text: msg@, foreground: Color::Reset, background }),
    {
        Self { msg, foreground: Color::Reset, background }
    }

    /// A message with both colours given.
    pub fn with_color(msg: String, foreground: Color, background: Color) -> (r: Self)
        ensures
            r@ == (Entry { text: msg@, foreground, background }),
    {
        Self { msg, foreground, background }
    }

    /// The entry as named fields, for a renderer that takes its data as a
    /// map from names to values: the text under `msg`, then the two colours
    /// under `foreground` and `background`.
    pub fn into_fields(self) -> (r: Vec<(String, Field)>)
        ensures
            r@.len() == 3,
            r@[0].0@ == "msg"@,
            r@[0].1 == Field::Text(self.msg),
            r@[1].0@ == "foreground"@,
            r@[1].1 == Field::Color(self.foreground),
            r@[2].0@ == "background"@,
            r@[2].1 == Field::Color(self.background),
    {
        let mut fields = Vec::new();
        fields.push((String::from_str("msg"), Field::Text(self.msg)));
        fields.push((String::from_str("foreground"), Field::Color(self.foreground)));
        fields.push((String::from_str("background"), Field::Color(self.background)));
        fields
    }
}

/// The entries that a stored log stands for, in order.
pub open spec fn log_view(log: Seq<StdoutMsg>) -> Seq<Entry> {
    log.map_values(|m: StdoutMsg| m@)
}

} // verus!
