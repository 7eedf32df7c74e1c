//! The state that the workers share: the transcript, the input line and the
//! shutdown flag.
//!
//! Each store is a plain value. Whoever shares one between workers puts it
//! behind a lock of its own and holds that lock for one call at a time.

use crate::window::texts;
use vstd::prelude::*;

verus! {

/// The chat log: complete lines in the order in which they arrived.
///
/// Lines are only ever added at the end. Nothing removes, reorders or
/// rewrites a line.
pub struct Transcript {
    lines: Vec<String>,
}

impl View for Transcript {
    type V = Seq<Seq<char>>;

    closed spec fn view(&self) -> Seq<Seq<char>> {
        texts(self.lines@)
    }
}

impl Transcript {
    /// An empty transcript.
    pub fn new() -> (transcript: Transcript)
        ensures
            transcript@ == Seq::<Seq<char>>::empty(),
    {
        Transcript { lines: Vec::new() }
    }

    /// Adds `line` as the newest line. Every earlier line stays where and
    /// what it was.
    pub fn append(&mut self, line: String)
        ensures
            final(self)@ == old(self)@.push(line@),
    {
        self.lines.push(line);
    }

    /// Number of lines.
    pub fn len(&self) -> (n: usize)
        ensures
            n == self@.len(),
    {
        self.lines.len()
    }

    /// The lines, oldest first.
    pub fn lines(&self) -> (lines: &[String])
        ensures
            texts(lines@) == self@,
    {
        self.lines.as_slice()
    }

    /// A copy of the lines as they are now, oldest first.
    pub fn snapshot(&self) -> (copy: Vec<String>)
        ensures
            texts(copy@) == self@,
    {
        let mut copy: Vec<String> = Vec::new();
        let mut i: usize = 0;
        while i < self.lines.len()
            invariant
                i <= self.lines.len(),
                texts(copy@) == self@.take(i as int),
            decreases self.lines.len() - i,
        {
            let ghost copied = texts(copy@);
            let line = self.lines[i].clone();
            copy.push(line);
            assert(texts(copy@) == copied.push(self@[i as int]));
            assert(self@.take(i + 1) == self@.take(i as int).push(self@[i as int]));
            i += 1;
        }
        copy
    }
}

/// Whether `merged` takes every item of `first` and of `second`, each list
/// in its own order, and nothing else.
pub open spec fn interleaves<T>(merged: Seq<T>, first: Seq<T>, second: Seq<T>) -> bool
    decreases merged.len(),
{
    if merged.len() == 0 {
        first.len() == 0 && second.len() == 0
    } else {
        ||| first.len() > 0 && first.last() == merged.last() && interleaves(
            merged.drop_last(),
            first.drop_last(),
            second,
        )
        ||| second.len() > 0 && second.last() == merged.last() && interleaves(
            merged.drop_last(),
            first,
            second.drop_last(),
        )
    }
}

/// The transcript after `lines` have been appended to it one by one.
pub open spec fn with_lines(transcript: Seq<Seq<char>>, lines: Seq<Seq<char>>) -> Seq<Seq<char>>
    decreases lines.len(),
{
    if lines.len() == 0 {
        transcript
    } else {
        with_lines(transcript, lines.drop_last()).push(lines.last())
    }
}

/// Appending line after line is appending them all, in order, behind what
/// was there.
pub proof fn lemma_with_lines(transcript: Seq<Seq<char>>, lines: Seq<Seq<char>>)
    ensures
        with_lines(transcript, lines) == transcript + lines,
    decreases lines.len(),
{
    if lines.len() > 0 {
        lemma_with_lines(transcript, lines.drop_last());
        assert(transcript + lines == (transcript + lines.drop_last()).push(lines.last()));
    }
}

/// However the lines of two producers interleave:
/// `merged` holds as many lines as both appended together.
pub proof fn lemma_interleaving_keeps_every_line<T>(merged: Seq<T>, first: Seq<T>, second: Seq<T>)
    requires
        interleaves(merged, first, second),
    ensures
        merged.len() == first.len() + second.len(),
    decreases merged.len(),
{
    if merged.len() > 0 {
        if first.len() > 0 && first.last() == merged.last() && interleaves(
            merged.drop_last(),
            first.drop_last(),
            second,
        ) {
            lemma_interleaving_keeps_every_line(merged.drop_last(), first.drop_last(), second);
        } else {
            lemma_interleaving_keeps_every_line(merged.drop_last(), first, second.drop_last());
        }
    }
}

/// Two producers append to one transcript, and their appends get in one at
/// a time in whatever order. Afterwards the transcript is longer by the
/// number of lines that both appended together, and every line that was
/// there before is still there, in its place and unchanged.
pub proof fn lemma_concurrent_appends(
    transcript: Seq<Seq<char>>,
    merged: Seq<Seq<char>>,
    first: Seq<Seq<char>>,
    second: Seq<Seq<char>>,
)
    requires
        interleaves(merged, first, second),
    ensures
        with_lines(transcript, merged).len() == transcript.len() + first.len() + second.len(),
        forall|i: int|
            0 <= i < transcript.len() ==> with_lines(transcript, merged)[i] == transcript[i],
{
    lemma_with_lines(transcript, merged);
    lemma_interleaving_keeps_every_line(merged, first, second);
}

/// The line that the user is typing and has not submitted yet.
pub struct InputLine {
    text: String,
}

impl View for InputLine {
    type V = Seq<char>;

    closed spec fn view(&self) -> Seq<char> {
        self.text@
    }
}

impl InputLine {
    /// An empty input line.
    pub fn new() -> (input: InputLine)
        ensures
            input@ == Seq::<char>::empty(),
    {
        InputLine { text: String::new() }
    }

    /// Appends one typed character.
    pub fn push(&mut self, ch: char)
        ensures
            final(self)@ == old(self)@.push(ch),
    {
        self.text.push(ch);
    }

    /// Appends pasted text as it is.
    pub fn push_str(&mut self, pasted: &str)
        ensures
            final(self)@ == old(self)@ + pasted@,
    {
        self.text.append(pasted);
    }

    /// The text typed so far.
    pub fn as_str(&self) -> (text: &str)
        ensures
            text@ == self@,
    {
        self.text.as_str()
    }

    /// Hands out the text typed so far and leaves the line empty.
    pub fn take(&mut self) -> (line: String)
        ensures
            line@ == old(self)@,
            final(self)@ == Seq::<char>::empty(),
    {
        let mut line = String::new();
        core::mem::swap(&mut self.text, &mut line);
        line
    }
}

/// The signal that tells every worker to stop. It starts lowered, and once
/// raised it stays raised: nothing lowers it.
pub struct ShutdownFlag {
    raised: bool,
}

impl View for ShutdownFlag {
    type V = bool;

    closed spec fn view(&self) -> bool {
        self.raised
    }
}

impl ShutdownFlag {
    /// A lowered flag.
    pub fn new() -> (flag: ShutdownFlag)
        ensures
            !flag@,
    {
        ShutdownFlag { raised: false }
    }

    /// Raises the flag.
    pub fn raise(&mut self)
        ensures
            final(self)@,
    {
        self.raised = true;
    }

    /// Whether the flag has been raised.
    pub fn is_raised(&self) -> (raised: bool)
        ensures
            raised == self@,
    {
        self.raised
    }
}

} // verus!
