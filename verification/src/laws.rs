//! What holds of the dispatch rules as a whole, proved over the states and
//! events as the contracts of `Tui` speak of them.

use vstd::prelude::*;
use crate::event::{Action, EventView, KeyCode};
use crate::message::Entry;
use crate::tui::{action_for, send_failure_text, Parsed, Sent, UiView};

verus! {

/// The event of typing the given character.
pub open spec fn key_press(c: char) -> EventView {
    EventView::Key(KeyCode::Char(c))
}

/// The events of typing the given characters one after another.
pub open spec fn key_presses(chars: Seq<char>) -> Seq<EventView> {
    chars.map_values(|c: char| key_press(c))
}

/// Typing a run of characters, with no Enter or backspace in between, adds
/// exactly those characters, in order, to the end of the input line, and
/// leaves the log alone.
pub proof fn typing_concatenates(before: UiView, chars: Seq<char>)
    ensures
        before.after_all(key_presses(chars)) == (UiView {
            input: before.input + chars,
            log: before.log,
        }),
    decreases chars.len(),
{
    if chars.len() == 0 {
        assert(before.input + chars =~= before.input);
    } else {
        typing_concatenates(before, chars.drop_last());
        assert(key_presses(chars).drop_last() =~= key_presses(chars.drop_last()));
        assert(key_presses(chars).last() == key_press(chars.last()));
        assert((before.input + chars.drop_last()).push(chars.last()) =~= before.input + chars);
    }
}

/// Backspace on an empty input line changes nothing and only asks for the
/// next event.
pub proof fn backspace_on_empty_is_noop(before: UiView)
    requires
        before.input.len() == 0,
    ensures
        before.after(EventView::Key(KeyCode::Backspace)) == before,
        action_for(EventView::Key(KeyCode::Backspace)) == Action::Continue,
{
}

/// Enter itself changes nothing; when the interpreter then gives a message
/// and the send succeeds, the input line is empty and the log is as before.
pub proof fn sent_line_clears_input(before: UiView)
    ensures
        action_for(EventView::Key(KeyCode::Enter)) == Action::Interpret,
        before.after(EventView::Key(KeyCode::Enter)) == before,
        before.after_submit(Parsed::Message, Ok(())).input == Seq::<char>::empty(),
        before.after_submit(Parsed::Message, Ok(())).log == before.log,
{
}

/// When the interpreter refuses the line, the log gains exactly one entry,
/// the reason in the terminal's own colours, and the input line is
/// unchanged, whatever the state of the connection worker.
pub proof fn rejected_line_is_logged(before: UiView, reason: Seq<char>, sent: Sent)
    ensures
        before.after_submit(Parsed::Rejected(reason), sent).log == before.log.push(
            Entry::plain(reason),
        ),
        before.after_submit(Parsed::Rejected(reason), sent).input == before.input,
{
}

/// When the interpreter gives a message and the send fails, the log gains
/// exactly one entry, which reports the failure, and the input line is
/// unchanged.
pub proof fn failed_send_keeps_input(before: UiView, reason: Seq<char>)
    ensures
        before.after_submit(Parsed::Message, Err(reason)).log == before.log.push(
            Entry::plain(send_failure_text(reason)),
        ),
        before.after_submit(Parsed::Message, Err(reason)).input == before.input,
{
}

/// When the interpreter handles the line and has nothing to send, input
/// line and log stay as they are.
pub proof fn nothing_to_send_changes_nothing(before: UiView, sent: Sent)
    ensures
        before.after_submit(Parsed::Nothing, sent) == before,
{
}

/// A notification never touches the input line: it adds its entry at the
/// end of the log, whatever is typed at the time.
pub proof fn notification_only_appends(before: UiView, entry: Entry)
    ensures
        before.after(EventView::User(entry)).input == before.input,
        before.after(EventView::User(entry)).log == before.log.push(entry),
        action_for(EventView::User(entry)) == Action::Continue,
{
}

/// An interrupt ends the loop, whatever is typed and unsent, and so does a
/// quit; neither changes the state. No other event ends the loop.
pub proof fn interrupt_always_terminates(before: UiView, event: EventView)
    ensures
        action_for(EventView::Interrupt).terminates(),
        before.after(EventView::Interrupt) == before,
        action_for(event).terminates() <==> (event is Interrupt || event is Quit),
        action_for(event).terminates() ==> before.after(event) == before,
{
}

/// The log never loses or reorders an entry: after any event, and after any
/// submit, the old log is the beginning of the new one.
pub proof fn log_only_grows(before: UiView, event: EventView, parsed: Parsed, sent: Sent)
    ensures
        before.log.is_prefix_of(before.after(event).log),
        before.log.is_prefix_of(before.after_submit(parsed, sent).log),
{
}

} // verus!
