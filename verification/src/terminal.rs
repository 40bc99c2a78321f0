//! The terminal of an app: a line of input that keys edit, and a bounded
//! number of lines of output.

use crate::events::OnUserMessage;
use vstd::prelude::*;
use vstd::string::*;

verus! {

/// The number of lines of output that the terminal keeps.
pub const MAX_LINES: usize = 12;

/// A line for the terminal's output.
#[derive(Debug, Clone, PartialEq, Eq)]
pub struct OnLogMessage(pub String);

impl OnLogMessage {
    /// The line that says `message`.
    pub fn new(message: String) -> (line: Self)
        ensures
            line.0 == message,
    {
        OnLogMessage(message)
    }
}

/// A key as the terminal sees it.
#[derive(Debug, Clone, PartialEq, Eq)]
pub enum TerminalKey {
    /// Sends the line.
    Enter,
    /// Takes the last character away.
    Backspace,
    /// Adds a blank.
    Space,
    /// Adds the characters that the key stands for.
    Character(String),
    /// Any other key: nothing happens.
    Other,
}

/// The line after `key` was pressed.
pub open spec fn line_after(line: Seq<char>, key: TerminalKey) -> Seq<char> {
    match key {
        TerminalKey::Enter => Seq::empty(),
        TerminalKey::Backspace => if line.len() > 0 {
            line.drop_last()
        } else {
            line
        },
        TerminalKey::Space => line.push(' '),
        TerminalKey::Character(characters) => line + characters@,
        TerminalKey::Other => line,
    }
}

/// Applies one pressed key to the line of input. Enter sends the line as a
/// message of the user and empties it; every other key only edits the line.
pub fn parse_text_input(text: &mut String, key: &TerminalKey) -> (sent: Option<OnUserMessage>)
    ensures
        final(text)@ == line_after(old(text)@, *key),
        match sent {
            Some(message) => *key == TerminalKey::Enter && message.0@ == old(text)@,
            None => *key != TerminalKey::Enter,
        },
{
    match key {
        TerminalKey::Enter => {
            let mut line = String::new();
            std::mem::swap(&mut line, text);
            Some(OnUserMessage(line))
        },
        TerminalKey::Backspace => {
            let len = text.as_str().unicode_len();
            if len > 0 {
                let kept = String::from_str(text.as_str().substring_char(0, len - 1));
                *text = kept;
                assert(text@ =~= old(text)@.drop_last());
            }
            None
        },
        TerminalKey::Space => {
            proof {
                reveal_strlit(" ");
            }
            text.append(" ");
            assert(text@ =~= old(text)@.push(' '));
            None
        },
        TerminalKey::Character(characters) => {
            text.append(characters.as_str());
            None
        },
        TerminalKey::Other => None,
    }
}

/// The number of lines of output to take away, oldest first, so that at most
/// `MAX_LINES` stay.
pub fn excess_lines(num_lines: usize) -> (num_over_max: usize)
    ensures
        num_over_max == if num_lines > MAX_LINES {
            num_lines - MAX_LINES
        } else {
            0
        },
{
    if num_lines > MAX_LINES {
        num_lines - MAX_LINES
    } else {
        0
    }
}

/// The line of output for a message of the user.
pub fn log_user_message(message: &OnUserMessage) -> (line: OnLogMessage)
    ensures
        line.0@ == "User: "@ + message.0@,
{
    let mut line = String::from_str("User: ");
    line.append(message.0.as_str());
    OnLogMessage(line)
}

/// The line of output that says that the app is ready.
pub fn log_app_ready() -> (line: String)
    ensures
        line@ == "Event: AppReady"@,
{
    String::from_str("Event: AppReady")
}

} // verus!
