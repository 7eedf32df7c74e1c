//! What the serial worker does with the outcome of each read.
//!
//! A chunk of bytes that is text becomes one line of the transcript, as it
//! is: the end of the chunk ends the line, a newline inside it does not. A
//! chunk that is not text is dropped. A read that fails is tried again after
//! a pause that doubles with every failure in a row; when the retries are
//! used up the link is given up, a status line says so, and the worker
//! stops.

use crate::text::decode;
use vstd::prelude::*;
use vstd::utf8::{decode_utf8, encode_utf8_decode_utf8, valid_utf8};

verus! {

/// Smallest buffer, in bytes, to read the serial port into.
pub const READ_BUFFER_SIZE: usize = 512;

/// The status line that marks the link as lost.
pub const LINK_LOST: &'static str = "link lost";

/// How one read of the serial port ended.
#[derive(Debug, PartialEq, Eq)]
pub enum ReadOutcome {
    /// The read returned these bytes; none, where nothing had arrived.
    Data(Vec<u8>),
    /// The read timed out: nothing has arrived yet.
    TimedOut,
    /// The read failed for any other reason.
    Failed,
}

/// The model of `ReadOutcome`.
pub enum Read {
    Data(Seq<u8>),
    TimedOut,
    Failed,
}

impl View for ReadOutcome {
    type V = Read;

    open spec fn view(&self) -> Read {
        match *self {
            ReadOutcome::Data(bytes) => Read::Data(bytes@),
            ReadOutcome::TimedOut => Read::TimedOut,
            ReadOutcome::Failed => Read::Failed,
        }
    }
}

/// What the serial worker is to do next.
#[derive(Debug, PartialEq, Eq)]
pub enum SerialAction {
    /// Read again.
    Poll,
    /// Append the line to the transcript and read again.
    Append(String),
    /// The chunk was not text and has been dropped: report it and read
    /// again.
    Discard,
    /// The read failed: report it, wait this long and read again.
    Retry { delay_ms: u64 },
    /// The link is lost: append the status line to the transcript and stop.
    GiveUp(String),
    /// The link was given up before: stop.
    Stopped,
}

/// The model of `SerialAction`.
pub enum Step {
    Poll,
    Append(Seq<char>),
    Discard,
    Retry { delay_ms: u64 },
    GiveUp(Seq<char>),
    Stopped,
}

impl View for SerialAction {
    type V = Step;

    open spec fn view(&self) -> Step {
        match *self {
            SerialAction::Poll => Step::Poll,
            SerialAction::Append(line) => Step::Append(line@),
            SerialAction::Discard => Step::Discard,
            SerialAction::Retry { delay_ms } => Step::Retry { delay_ms },
            SerialAction::GiveUp(line) => Step::GiveUp(line@),
            SerialAction::Stopped => Step::Stopped,
        }
    }
}

/// The line that an action adds to the transcript, if it adds one.
pub open spec fn appended(step: Step) -> Option<Seq<char>> {
    match step {
        Step::Append(line) => Some(line),
        Step::GiveUp(line) => Some(line),
        _ => None,
    }
}

/// Twice `delay`, or the largest value where that does not fit.
pub open spec fn doubled(delay: u64) -> u64 {
    if delay > u64::MAX / 2 {
        u64::MAX
    } else {
        (2 * delay) as u64
    }
}

/// The pause after the `failures`-th failed read in a row: `base` after the
/// first, and twice the one before after every further one.
pub open spec fn backoff(base: u64, failures: nat) -> u64
    decreases failures,
{
    if failures <= 1 {
        base
    } else {
        doubled(backoff(base, (failures - 1) as nat))
    }
}

/// The model of `SerialReader`.
pub struct Reader {
    /// How many failed reads in a row are tried again.
    pub max_retries: nat,
    /// The pause after a first failure, in milliseconds.
    pub base_delay_ms: u64,
    /// How many reads have failed in a row.
    pub failures: nat,
    /// Whether the link has been given up.
    pub lost: bool,
}

/// What a chunk of bytes asks for: nothing where it is empty, a new line
/// holding its text where it is valid UTF-8, and to be dropped otherwise.
pub open spec fn received(bytes: Seq<u8>) -> Step {
    if bytes.len() == 0 {
        Step::Poll
    } else if valid_utf8(bytes) {
        Step::Append(decode_utf8(bytes))
    } else {
        Step::Discard
    }
}

/// The reader after a read with this outcome, and what the worker is to do.
///
/// A read that did not fail, a timeout too, ends the run of failures. A
/// failed read is tried again while retries are left, and gives the link up
/// when none is. After that every outcome is answered with `Stopped`.
pub open spec fn serial_step(reader: Reader, read: Read) -> (Reader, Step) {
    if reader.lost {
        (reader, Step::Stopped)
    } else {
        match read {
            Read::Data(bytes) => (Reader { failures: 0, ..reader }, received(bytes)),
            Read::TimedOut => (Reader { failures: 0, ..reader }, Step::Poll),
            Read::Failed => if reader.failures < reader.max_retries {
                (
                    Reader { failures: reader.failures + 1, ..reader },
                    Step::Retry {
                        delay_ms: backoff(reader.base_delay_ms, reader.failures + 1),
                    },
                )
            } else {
                (Reader { lost: true, ..reader }, Step::GiveUp(LINK_LOST@))
            },
        }
    }
}

/// The serial worker's own state: its retry policy and how the last reads
/// went.
pub struct SerialReader {
    max_retries: u32,
    base_delay_ms: u64,
    failures: u32,
    next_delay_ms: u64,
    lost: bool,
}

impl View for SerialReader {
    type V = Reader;

    closed spec fn view(&self) -> Reader {
        Reader {
            max_retries: self.max_retries as nat,
            base_delay_ms: self.base_delay_ms,
            failures: self.failures as nat,
            lost: self.lost,
        }
    }
}

impl SerialReader {
    #[verifier::type_invariant]
    spec fn well_formed(self) -> bool {
        &&& self.failures <= self.max_retries
        &&& self.next_delay_ms == backoff(self.base_delay_ms, (self.failures + 1) as nat)
    }

    /// A reader on a fresh link that tries a failed read again up to
    /// `max_retries` times in a row, pausing `base_delay_ms` milliseconds
    /// after the first failure.
    pub fn new(max_retries: u32, base_delay_ms: u64) -> (reader: SerialReader)
        ensures
            reader@ == (Reader {
                max_retries: max_retries as nat,
                base_delay_ms,
                failures: 0,
                lost: false,
            }),
    {
        SerialReader {
            max_retries,
            base_delay_ms,
            failures: 0,
            next_delay_ms: base_delay_ms,
            lost: false,
        }
    }

    /// Whether the link has been given up.
    pub fn is_lost(&self) -> (lost: bool)
        ensures
            lost == self@.lost,
    {
        self.lost
    }

    /// Takes the outcome of a read and says what to do next.
    pub fn on_read(&mut self, outcome: ReadOutcome) -> (action: SerialAction)
        ensures
            (final(self)@, action@) == serial_step(old(self)@, outcome@),
    {
        proof {
            use_type_invariant(&*self);
        }
        if self.lost {
            return SerialAction::Stopped;
        }
        match outcome {
            ReadOutcome::Data(bytes) => {
                self.rest();
                classify(bytes)
            },
            ReadOutcome::TimedOut => {
                self.rest();
                SerialAction::Poll
            },
            ReadOutcome::Failed => {
                if self.failures < self.max_retries {
                    let delay_ms: u64 = self.next_delay_ms;
                    let next: u64 = if delay_ms > u64::MAX / 2 {
                        u64::MAX
                    } else {
                        delay_ms * 2
                    };
                    *self = SerialReader {
                        max_retries: self.max_retries,
                        base_delay_ms: self.base_delay_ms,
                        failures: self.failures + 1,
                        next_delay_ms: next,
                        lost: false,
                    };
                    SerialAction::Retry { delay_ms }
                } else {
                    *self = SerialReader {
                        max_retries: self.max_retries,
                        base_delay_ms: self.base_delay_ms,
                        failures: self.failures,
                        next_delay_ms: self.next_delay_ms,
                        lost: true,
                    };
                    SerialAction::GiveUp(LINK_LOST.to_owned())
                }
            },
        }
    }

    /// Ends the run of failures.
    fn rest(&mut self)
        ensures
            final(self)@ == (Reader { failures: 0, ..old(self)@ }),
    {
        *self = SerialReader {
            max_retries: self.max_retries,
            base_delay_ms: self.base_delay_ms,
            failures: 0,
            next_delay_ms: self.base_delay_ms,
            lost: self.lost,
        };
    }
}

/// Says what a chunk of bytes asks for.
pub fn classify(bytes: Vec<u8>) -> (action: SerialAction)
    ensures
        action@ == received(bytes@),
{
    if bytes.len() == 0 {
        return SerialAction::Poll;
    }
    match decode(bytes) {
        Some(line) => {
            proof {
                encode_utf8_decode_utf8(line@);
            }
            SerialAction::Append(line)
        },
        None => SerialAction::Discard,
    }
}

} // verus!
