//! What the keyboard worker does with each terminal event.
//!
//! Keys act when they are released, never when they are pressed or held, so
//! that one keystroke has one effect on terminals that report both.

use crossterm::event::KeyModifiers;
use vstd::prelude::*;

verus! {

/// The key of a key event, as far as the chat reads it.
#[derive(Clone, Copy, Debug, PartialEq, Eq, Structural)]
pub enum Key {
    /// A key that types a character.
    Char(char),
    Enter,
    Esc,
    /// Any other key.
    Other,
}

/// Whether a key went down, is held down, or came up.
#[derive(Clone, Copy, Debug, PartialEq, Eq, Structural)]
pub enum KeyKind {
    Press,
    Repeat,
    Release,
}

/// An event from the terminal.
#[derive(Debug, PartialEq, Eq)]
pub enum InputEvent {
    /// The terminal now has this many columns and rows.
    Resize { width: u16, height: u16 },
    /// Text arrived in one piece, pasted.
    Paste(String),
    /// A key event; `modifiers` holds the bits of `crossterm`'s
    /// `KeyModifiers`.
    Key { code: Key, kind: KeyKind, modifiers: u8 },
    /// Anything else: focus changes, the mouse.
    Other,
}

/// The model of `InputEvent`.
pub enum Event {
    Resize { width: u16, height: u16 },
    Paste(Seq<char>),
    Key { code: Key, kind: KeyKind, modifiers: u8 },
    Other,
}

impl View for InputEvent {
    type V = Event;

    open spec fn view(&self) -> Event {
        match *self {
            InputEvent::Resize { width, height } => Event::Resize { width, height },
            InputEvent::Paste(text) => Event::Paste(text@),
            InputEvent::Key { code, kind, modifiers } => Event::Key { code, kind, modifiers },
            InputEvent::Other => Event::Other,
        }
    }
}

/// What an event asks the chat to do.
#[derive(Debug, PartialEq, Eq)]
pub enum KeyAction {
    /// Nothing.
    Ignore,
    /// Take the new viewport size.
    Resize { width: u16, height: u16 },
    /// Append the character to the input line.
    Insert(char),
    /// Append the text to the input line.
    Paste(String),
    /// Move the input line into the transcript.
    Submit,
    /// Raise the shutdown flag.
    Quit,
}

/// The model of `KeyAction`.
pub enum Action {
    Ignore,
    Resize { width: u16, height: u16 },
    Insert(char),
    Paste(Seq<char>),
    Submit,
    Quit,
}

impl View for KeyAction {
    type V = Action;

    open spec fn view(&self) -> Action {
        match *self {
            KeyAction::Ignore => Action::Ignore,
            KeyAction::Resize { width, height } => Action::Resize { width, height },
            KeyAction::Insert(ch) => Action::Insert(ch),
            KeyAction::Paste(text) => Action::Paste(text@),
            KeyAction::Submit => Action::Submit,
            KeyAction::Quit => Action::Quit,
        }
    }
}

/// Whether the control bit is set among the modifier bits of a key event.
pub open spec fn holds_control(modifiers: u8) -> bool {
    modifiers & 0x02 == 0x02
}

/// What a released key asks for.
///
/// With control held, `c` quits and every other character is ignored;
/// without it a character is typed. Escape quits and Enter submits whatever
/// the modifiers.
pub open spec fn released(code: Key, modifiers: u8) -> Action {
    match code {
        Key::Char(ch) => if !holds_control(modifiers) {
            Action::Insert(ch)
        } else if ch == 'c' {
            Action::Quit
        } else {
            Action::Ignore
        },
        Key::Esc => Action::Quit,
        Key::Enter => Action::Submit,
        Key::Other => Action::Ignore,
    }
}

/// What an event asks for.
pub open spec fn decision(event: Event) -> Action {
    match event {
        Event::Resize { width, height } => Action::Resize { width, height },
        Event::Paste(text) => Action::Paste(text),
        Event::Key { code, kind, modifiers } => if kind == KeyKind::Release {
            released(code, modifiers)
        } else {
            Action::Ignore
        },
        Event::Other => Action::Ignore,
    }
}

/// Calls `contains(KeyModifiers::CONTROL)` on the `crossterm` modifiers
/// made of these bits. `CONTROL` is the bit `0b10`, and `contains` tests
/// that every bit of its argument is set. Trusted: the result is taken to
/// be `holds_control(modifiers)`.
#[verifier::external_body]
fn control_held(modifiers: u8) -> (held: bool)
    ensures
        held == holds_control(modifiers),
{
    KeyModifiers::from_bits_truncate(modifiers).contains(KeyModifiers::CONTROL)
}

/// Decides what an event asks the chat to do.
pub fn decide(event: InputEvent) -> (action: KeyAction)
    ensures
        action@ == decision(event@),
{
    match event {
        InputEvent::Resize { width, height } => KeyAction::Resize { width, height },
        InputEvent::Paste(text) => KeyAction::Paste(text),
        InputEvent::Key { code, kind, modifiers } => {
            match kind {
                KeyKind::Release => match code {
                    Key::Char(ch) => {
                        if !control_held(modifiers) {
                            KeyAction::Insert(ch)
                        } else if ch == 'c' {
                            KeyAction::Quit
                        } else {
                            KeyAction::Ignore
                        }
                    },
                    Key::Esc => KeyAction::Quit,
                    Key::Enter => KeyAction::Submit,
                    Key::Other => KeyAction::Ignore,
                },
                _ => KeyAction::Ignore,
            }
        },
        InputEvent::Other => KeyAction::Ignore,
    }
}

} // verus!
