//! The state that the screen shows and the rules that change it.

use vstd::prelude::*;
use vstd::string::StringSliceAdditionalSpecFns;
use std::sync::mpsc::Sender;
use crate::event::{Action, Event, EventView, KeyCode};
use crate::message::{log_view, Entry, StdoutMsg};
use crate::worker::hand_over;

verus! {

/// What the screen shows: the line being typed and the message log.
pub ghost struct UiView {
    pub input: Seq<char>,
    pub log: Seq<Entry>,
}

/// What the command interpreter made of a line, without the message itself.
pub ghost enum Parsed {
    /// There is a message to send.
    Message,
    /// The line was handled and nothing is to be sent.
    Nothing,
    /// The line was refused, with the reason.
    Rejected(Seq<char>),
}

/// What became of handing a message to the connection worker: `Ok`, or the
/// reason of the failure.
pub type Sent = Result<(), Seq<char>>;

/// The interpreter's result as the rules see it.
pub open spec fn parsed_view<M>(parsed: Result<Option<M>, String>) -> Parsed {
    match parsed {
        Ok(Some(_)) => Parsed::Message,
        Ok(None) => Parsed::Nothing,
        Err(reason) => Parsed::Rejected(reason@),
    }
}

/// The outcome of a send as the rules see it.
pub open spec fn sent_view(sent: Result<(), String>) -> Sent {
    match sent {
        Ok(_) => Ok(()),
        Err(reason) => Err(reason@),
    }
}

/// The text of the log entry that reports a failed send.
pub open spec fn send_failure_text(reason: Seq<char>) -> Seq<char> {
    "Error while sending message ton connection handler via mpsc: "@ + reason
}

/// What the caller is asked to do after the given event.
pub open spec fn action_for(event: EventView) -> Action {
    match event {
        EventView::Interrupt => Action::Shutdown,
        EventView::Quit => Action::Stop,
        EventView::Key(KeyCode::Enter) => Action::Interpret,
        _ => Action::Continue,
    }
}

impl UiView {
    /// Empty input line, empty log.
    pub open spec fn initial() -> UiView {
        UiView { input: Seq::empty(), log: Seq::empty() }
    }

    /// The character is added at the end of the input line.
    pub open spec fn typed(self, c: char) -> UiView {
        UiView { input: self.input.push(c), log: self.log }
    }

    /// The last character of the input line is removed, if there is one.
    pub open spec fn erased(self) -> UiView {
        if self.input.len() == 0 {
            self
        } else {
            UiView { input: self.input.drop_last(), log: self.log }
        }
    }

    /// The input line is emptied.
    pub open spec fn cleared(self) -> UiView {
        UiView { input: Seq::empty(), log: self.log }
    }

    /// The entry is added at the end of the log.
    pub open spec fn logged(self, entry: Entry) -> UiView {
        UiView { input: self.input, log: self.log.push(entry) }
    }

    /// The state after one event.
    pub open spec fn after(self, event: EventView) -> UiView {
        match event {
            EventView::Key(KeyCode::Char(c)) => self.typed(c),
            EventView::Key(KeyCode::Backspace) => self.erased(),
            EventView::User(entry) => self.logged(entry),
            _ => self,
        }
    }

    /// The state after a sequence of events, handled in order.
    pub open spec fn after_all(self, events: Seq<EventView>) -> UiView
        decreases events.len(),
    {
        if events.len() == 0 {
            self
        } else {
            self.after_all(events.drop_last()).after(events.last())
        }
    }

    /// The state after the interpreter's result is known: a refusal is
    /// logged, anything else changes nothing yet.
    pub open spec fn after_parse(self, parsed: Parsed) -> UiView {
        match parsed {
            Parsed::Rejected(reason) => self.logged(Entry::plain(reason)),
            _ => self,
        }
    }

    /// The state after an attempt to send: success empties the input line,
    /// failure is logged and keeps the line.
    pub open spec fn after_send(self, sent: Sent) -> UiView {
        match sent {
            Ok(_) => self.cleared(),
            Err(reason) => self.logged(Entry::plain(send_failure_text(reason))),
        }
    }

    /// The state after a whole submit: the interpreter's result, and the
    /// outcome of the send where there was a message to send.
    pub open spec fn after_submit(self, parsed: Parsed, sent: Sent) -> UiView {
        match parsed {
            Parsed::Message => self.after_parse(parsed).after_send(sent),
            _ => self.after_parse(parsed),
        }
    }
}

/// The input line and the message log, changed by one event at a time.
pub struct Tui {
    input: String,
    messages: Vec<StdoutMsg>,
}

impl View for Tui {
    type V = UiView;

    closed spec fn view(&self) -> UiView {
        UiView { input: self.input@, log: log_view(self.messages@) }
    }
}

impl Tui {
    /// The state at startup: nothing typed, nothing logged.
    pub fn new() -> (r: Self)
        ensures
            r@ == UiView::initial(),
    {
        let r = Self { input: String::new(), messages: Vec::new() };
        assert(log_view(r.messages@) =~= Seq::<Entry>::empty());
        r
    }

    /// The line being typed.
    pub fn input(&self) -> (r: &str)
        ensures
            r@ == self@.input,
    {
        self.input.as_str()
    }

    /// The message log, oldest entry first.
    pub fn messages(&self) -> (r: &Vec<StdoutMsg>)
        ensures
            log_view(r@) == self@.log,
    {
        &self.messages
    }

    /// Adds an entry at the end of the log.
    pub fn append_message(&mut self, entry: StdoutMsg)
        ensures
            final(self)@ == old(self)@.logged(entry@),
    {
        self.messages.push(entry);
        assert(log_view(self.messages@) =~= log_view(old(self).messages@).push(entry@));
    }

    /// Handles one event and says what the caller is to do next. A character
    /// is appended to the input line, backspace removes the last one (or
    /// nothing from an empty line), a notification is logged; every other
    /// event leaves the state as it is.
    pub fn handle_event(&mut self, event: Event) -> (action: Action)
        ensures
            final(self)@ == old(self)@.after(event@),
            action == action_for(event@),
    {
        match event {
            Event::Interrupt => Action::Shutdown,
            Event::Quit => Action::Stop,
            Event::User(msg) => {
                self.append_message(msg);
                Action::Continue
            },
            Event::Key(code) => match code {
                KeyCode::Char(c) => {
                    self.input.push(c);
                    Action::Continue
                },
                KeyCode::Backspace => {
                    self.input.pop();
                    Action::Continue
                },
                KeyCode::Enter => Action::Interpret,
                KeyCode::Other => Action::Continue,
            },
        }
    }

    /// Takes the interpreter's result for the current input line. A message
    /// is handed back to be sent; a refusal is logged with its reason. The
    /// input line is never touched here: a line that was handled with
    /// nothing to send stays as typed, and so does a refused one.
    pub fn on_parsed<M>(&mut self, parsed: Result<Option<M>, String>) -> (outbound: Option<M>)
        ensures
            final(self)@ == old(self)@.after_parse(parsed_view(parsed)),
            outbound == (match parsed {
                Ok(found) => found,
                Err(_) => None,
            }),
    {
        match parsed {
            Ok(found) => found,
            Err(reason) => {
                self.append_message(StdoutMsg::new(reason));
                None
            },
        }
    }

    /// Takes the outcome of sending the message of the current input line.
    /// After a success the line is emptied; after a failure the line stays,
    /// for the user to submit again, and the failure is logged.
    pub fn on_sent(&mut self, sent: Result<(), String>)
        ensures
            final(self)@ == old(self)@.after_send(sent_view(sent)),
    {
        match sent {
            Ok(_) => {
                self.input.clear();
            },
            Err(reason) => {
                let mut text = String::from_str(
                    "Error while sending message ton connection handler via mpsc: ",
                );
                text.append(reason.as_str());
                self.append_message(StdoutMsg::new(text));
            },
        }
    }

    /// Finishes a submit: takes the interpreter's result and, where it holds
    /// a message, hands that message to the connection worker. Whether the
    /// worker is still there is not known beforehand, so the state afterwards
    /// is the one that follows the interpreter's result and some outcome of
    /// the send.
    pub fn submit<M>(&mut self, parsed: Result<Option<M>, String>, worker: &Sender<M>)
        ensures
            exists|sent: Sent| #[trigger]
                old(self)@.after_submit(parsed_view(parsed), sent) == final(self)@,
    {
        if let Some(msg) = self.on_parsed(parsed) {
            let sent = hand_over(worker, msg);
            let ghost outcome = sent_view(sent);
            self.on_sent(sent);
            assert(old(self)@.after_submit(parsed_view(parsed), outcome) == self@);
        } else {
            assert(old(self)@.after_submit(parsed_view(parsed), Ok(())) == self@);
        }
    }

    /// Handles one event from start to end. It is `handle_event`, and for
    /// Enter the submit as well: the interpreter is run on the input line and
    /// the bytes of the user's name, and its result goes through `submit`.
    /// The action that comes back is never `Action::Interpret`.
    pub fn dispatch<M, F>(
        &mut self,
        event: Event,
        username: &str,
        parse: F,
        worker: &Sender<M>,
    ) -> (action: Action)
        where
            F: FnOnce(&str, Vec<u8>) -> Result<Option<M>, String>,
        requires
            forall|line: &str, identity: Vec<u8>|
                identity@ == username.spec_bytes() ==> #[trigger] parse.requires((line, identity)),
        ensures
            action_for(event@) != Action::Interpret ==> {
                &&& action == action_for(event@)
                &&& final(self)@ == old(self)@.after(event@)
            },
            action_for(event@) == Action::Interpret ==> {
                &&& action == Action::Continue
                &&& exists|line: &str, identity: Vec<u8>, parsed: Result<Option<M>, String>, sent: Sent|
                    #![trigger
                        parse.ensures((line, identity), parsed),
                        old(self)@.after_submit(parsed_view(parsed), sent)
                    ]
                    {
                        &&& line@ == old(self)@.input
                        &&& identity@ == username.spec_bytes()
                        &&& parse.ensures((line, identity), parsed)
                        &&& old(self)@.after_submit(parsed_view(parsed), sent) == final(self)@
                    }
            },
    {
        let action = self.handle_event(event);
        match action {
            Action::Interpret => {
                let line = self.input.as_str();
                let identity = username.as_bytes_vec();
                let ghost given = identity;
                let parsed = parse(line, identity);
                let ghost seen = parsed;
                self.submit(parsed, worker);
                proof {
                    let sent = choose|sent: Sent| #[trigger]
                        old(self)@.after_submit(parsed_view(seen), sent) == self@;
                    assert(line@ == old(self)@.input);
                    assert(parse.ensures((line, given), seen));
                    assert(old(self)@.after_submit(parsed_view(seen), sent) == self@);
                }
                Action::Continue
            },
            _ => action,
        }
    }
}

} // verus!
