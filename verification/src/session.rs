//! The whole chat under one owner: the three stores and the viewport, and
//! what each kind of happening does to them.
//!
//! Workers that keep every store behind a lock of its own decide with
//! `keyboard::decide` and `SerialReader::on_read` and call the stores
//! themselves. A caller that keeps the chat in one place, behind one lock or
//! in one thread, hands the events to a `ChatSession`.

use crate::keyboard::{decide, decision, Action, Event, InputEvent, Key, KeyAction, KeyKind};
use crate::layout::{RenderError, ViewportSize};
use crate::screen::encoding;
use crate::serial::{appended, SerialAction, Step};
use crate::store::{InputLine, ShutdownFlag, Transcript};
use crate::window::{frame, render_frame};
use vstd::prelude::*;

verus! {

/// The state of a chat.
pub struct ChatSession {
    pub transcript: Transcript,
    pub input: InputLine,
    pub shutdown: ShutdownFlag,
    pub viewport: ViewportSize,
}

/// The model of `ChatSession`.
pub struct Chat {
    /// The lines of the transcript, oldest first.
    pub transcript: Seq<Seq<char>>,
    /// The line being typed.
    pub input: Seq<char>,
    /// Whether the shutdown flag is raised.
    pub quit: bool,
    pub viewport: ViewportSize,
}

impl View for ChatSession {
    type V = Chat;

    open spec fn view(&self) -> Chat {
        Chat {
            transcript: self.transcript@,
            input: self.input@,
            quit: self.shutdown@,
            viewport: self.viewport,
        }
    }
}

/// The chat after an action of the keyboard worker.
pub open spec fn perform(chat: Chat, action: Action) -> Chat {
    match action {
        Action::Ignore => chat,
        Action::Resize { width, height } => Chat {
            viewport: ViewportSize { width, height },
            ..chat
        },
        Action::Insert(ch) => Chat { input: chat.input.push(ch), ..chat },
        Action::Paste(text) => Chat { input: chat.input + text, ..chat },
        Action::Submit => Chat {
            transcript: chat.transcript.push(chat.input),
            input: Seq::empty(),
            ..chat
        },
        Action::Quit => Chat { quit: true, ..chat },
    }
}

/// The chat after an action of the serial worker: one line longer where the
/// action carries a line, unchanged otherwise.
pub open spec fn record(chat: Chat, step: Step) -> Chat {
    match appended(step) {
        Some(line) => Chat { transcript: chat.transcript.push(line), ..chat },
        None => chat,
    }
}

/// Something that happens to a chat: a terminal event, or an action of the
/// serial worker.
pub enum Happening {
    Terminal(Event),
    Serial(Step),
}

/// The chat after one happening.
pub open spec fn after(chat: Chat, happening: Happening) -> Chat {
    match happening {
        Happening::Terminal(event) => perform(chat, decision(event)),
        Happening::Serial(step) => record(chat, step),
    }
}

/// The chat after a run of happenings, taken in order.
pub open spec fn after_all(chat: Chat, happenings: Seq<Happening>) -> Chat
    decreases happenings.len(),
{
    if happenings.len() == 0 {
        chat
    } else {
        after(after_all(chat, happenings.drop_last()), happenings.last())
    }
}

/// How many lines a happening adds to the transcript: one or none.
pub open spec fn lines_added(happening: Happening) -> nat {
    match happening {
        Happening::Terminal(event) => if decision(event) is Submit {
            1
        } else {
            0
        },
        Happening::Serial(step) => if appended(step) is Some {
            1
        } else {
            0
        },
    }
}

/// How many lines a run of happenings adds to the transcript.
pub open spec fn lines_added_by(happenings: Seq<Happening>) -> nat
    decreases happenings.len(),
{
    if happenings.len() == 0 {
        0
    } else {
        lines_added_by(happenings.drop_last()) + lines_added(happenings.last())
    }
}

impl ChatSession {
    /// A fresh chat: nothing said, nothing typed, the flag lowered.
    pub fn new(viewport: ViewportSize) -> (session: ChatSession)
        ensures
            session@ == (Chat {
                transcript: Seq::empty(),
                input: Seq::empty(),
                quit: false,
                viewport,
            }),
    {
        ChatSession {
            transcript: Transcript::new(),
            input: InputLine::new(),
            shutdown: ShutdownFlag::new(),
            viewport,
        }
    }

    /// Carries out an action of the keyboard worker.
    pub fn apply(&mut self, action: KeyAction)
        ensures
            final(self)@ == perform(old(self)@, action@),
    {
        match action {
            KeyAction::Ignore => {},
            KeyAction::Resize { width, height } => {
                self.viewport.resize(width, height);
            },
            KeyAction::Insert(ch) => {
                self.input.push(ch);
            },
            KeyAction::Paste(text) => {
                self.input.push_str(text.as_str());
            },
            KeyAction::Submit => {
                let line = self.input.take();
                self.transcript.append(line);
            },
            KeyAction::Quit => {
                self.shutdown.raise();
            },
        }
    }

    /// Takes a terminal event: decides what it asks for and carries it out.
    pub fn handle_event(&mut self, event: InputEvent)
        ensures
            final(self)@ == perform(old(self)@, decision(event@)),
    {
        let action = decide(event);
        self.apply(action);
    }

    /// Carries out an action of the serial worker.
    pub fn record(&mut self, action: SerialAction)
        ensures
            final(self)@ == record(old(self)@, action@),
    {
        match action {
            SerialAction::Append(line) => {
                self.transcript.append(line);
            },
            SerialAction::GiveUp(line) => {
                self.transcript.append(line);
            },
            _ => {},
        }
    }

    /// Whether the workers are to stop.
    pub fn should_quit(&self) -> (quit: bool)
        ensures
            quit == self@.quit,
    {
        self.shutdown.is_raised()
    }

    /// Renders the chat as the bytes of one frame, or refuses a viewport
    /// without room for it as `TooSmall`.
    pub fn render(&self) -> (out: Result<Vec<u8>, RenderError>)
        ensures
            out is Ok <==> self@.viewport.fits(),
            out matches Ok(bytes) ==> bytes@ == encoding(
                frame(self@.transcript, self@.input, self@.viewport),
            ),
            out matches Err(e) ==> e == RenderError::TooSmall,
    {
        render_frame(self.transcript.lines(), self.input.as_str(), self.viewport)
    }
}

/// Appending never touches what is there: after any run of happenings the
/// transcript starts with the lines it had before, unchanged and in place,
/// and is longer by exactly the number of lines that the run added.
pub proof fn lemma_transcript_only_grows(chat: Chat, happenings: Seq<Happening>)
    ensures
        after_all(chat, happenings).transcript.len() == chat.transcript.len() + lines_added_by(
            happenings,
        ),
        after_all(chat, happenings).transcript.take(chat.transcript.len() as int)
            == chat.transcript,
    decreases happenings.len(),
{
    if happenings.len() > 0 {
        lemma_transcript_only_grows(chat, happenings.drop_last());
        let before = after_all(chat, happenings.drop_last());
        let now = after(before, happenings.last());
        assert(now.transcript.len() == before.transcript.len() + lines_added(happenings.last()));
        assert(now.transcript.take(before.transcript.len() as int) == before.transcript);
        assert(now.transcript.take(chat.transcript.len() as int) == before.transcript.take(
            chat.transcript.len() as int,
        ));
    } else {
        assert(chat.transcript.take(chat.transcript.len() as int) == chat.transcript);
    }
}

/// Enter, released, moves the input line into the transcript: the
/// transcript gains one line, which holds what was typed, and the input
/// line is left empty. Nothing else changes.
pub proof fn lemma_submit_clears_input(chat: Chat, modifiers: u8)
    ensures
        after(
            chat,
            Happening::Terminal(
                Event::Key { code: Key::Enter, kind: KeyKind::Release, modifiers },
            ),
        ) == (Chat { transcript: chat.transcript.push(chat.input), input: Seq::empty(), ..chat }),
{
}

/// Once the shutdown flag is raised it stays raised, whatever happens.
pub proof fn lemma_quit_is_permanent(chat: Chat, happenings: Seq<Happening>)
    requires
        chat.quit,
    ensures
        after_all(chat, happenings).quit,
    decreases happenings.len(),
{
    if happenings.len() > 0 {
        lemma_quit_is_permanent(chat, happenings.drop_last());
    }
}

/// A resize delivered twice in a row leaves the chat as one delivery does.
pub proof fn lemma_resize_is_idempotent(chat: Chat, width: u16, height: u16)
    ensures
        ({
            let resize = Happening::Terminal(Event::Resize { width, height });
            after(after(chat, resize), resize) == after(chat, resize)
        }),
{
}

} // verus!
