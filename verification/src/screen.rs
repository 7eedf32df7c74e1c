//! Drawing operations, and the bytes that carry them to the terminal.
//!
//! A frame is a list of operations: clear the screen, or put some bytes at a
//! cell. Cursor moves and the clear command are encoded by `crossterm`; the
//! text bytes pass through unchanged.

use crate::layout::{RenderError, LAST_CELL};
use crossterm::cursor::MoveTo;
use crossterm::terminal::{Clear, ClearType};
use crossterm::Command;
use vstd::prelude::*;

verus! {

/// One drawing operation of a frame.
#[derive(Debug, PartialEq, Eq)]
pub enum DrawOp {
    /// Blank the whole screen.
    Clear,
    /// Move the cursor to column `col` of row `row` and write `text` there.
    Put { col: u16, row: u16, text: Vec<u8> },
}

/// What a drawing operation means: the model of `DrawOp`.
pub enum Paint {
    Clear,
    Put { col: int, row: int, text: Seq<u8> },
}

impl View for DrawOp {
    type V = Paint;

    open spec fn view(&self) -> Paint {
        match *self {
            DrawOp::Clear => Paint::Clear,
            DrawOp::Put { col, row, text } => Paint::Put {
                col: col as int,
                row: row as int,
                text: text@,
            },
        }
    }
}

/// The model of a list of drawing operations.
pub open spec fn paints(ops: Seq<DrawOp>) -> Seq<Paint> {
    Seq::new(ops.len(), |i: int| ops[i]@)
}

/// Whether the terminal can address the cell that an operation starts at.
pub open spec fn addressable(paint: Paint) -> bool {
    match paint {
        Paint::Clear => true,
        Paint::Put { col, row, .. } => 0 <= col <= LAST_CELL && 0 <= row <= LAST_CELL,
    }
}

/// Decimal digits of `n` in ASCII, most significant first, no leading zero.
pub open spec fn decimal(n: nat) -> Seq<u8>
    decreases n,
{
    if n < 10 {
        seq![(48 + n) as u8]
    } else {
        decimal(n / 10).push((48 + n % 10) as u8)
    }
}

/// The escape sequence that moves the cursor to a cell: `ESC [ r ; c H`,
/// where `r` and `c` are the row and the column counted from one.
pub open spec fn cursor_to(col: int, row: int) -> Seq<u8> {
    seq![0x1Bu8, 0x5Bu8] + decimal((row + 1) as nat) + seq![0x3Bu8] + decimal((col + 1) as nat)
        + seq![0x48u8]
}

/// The escape sequence that blanks the whole screen: `ESC [ 2 J`.
pub open spec fn clear_all() -> Seq<u8> {
    seq![0x1Bu8, 0x5Bu8, 0x32u8, 0x4Au8]
}

/// The bytes of one operation.
pub open spec fn paint_bytes(paint: Paint) -> Seq<u8> {
    match paint {
        Paint::Clear => clear_all(),
        Paint::Put { col, row, text } => cursor_to(col, row) + text,
    }
}

/// The bytes of a list of operations: those of each, in order.
pub open spec fn encoding(ops: Seq<Paint>) -> Seq<u8>
    decreases ops.len(),
{
    if ops.len() == 0 {
        Seq::empty()
    } else {
        encoding(ops.drop_last()) + paint_bytes(ops.last())
    }
}

/// Calls `crossterm`'s `MoveTo(col, row).write_ansi`, which writes `ESC [`,
/// the row plus one, `;`, the column plus one and `H`, both numbers in
/// decimal. It adds the one in `u16`, so the last value is left out.
/// Trusted: the result is taken to be `cursor_to(col, row)`.
#[verifier::external_body]
fn cursor_bytes(col: u16, row: u16) -> (out: Vec<u8>)
    requires
        col <= LAST_CELL,
        row <= LAST_CELL,
    ensures
        out@ == cursor_to(col as int, row as int),
{
    let mut sequence = String::new();
    let _ = MoveTo(col, row).write_ansi(&mut sequence);
    sequence.into_bytes()
}

/// Calls `crossterm`'s `Clear(ClearType::All).write_ansi`, which writes
/// `ESC [ 2 J`. Trusted: the result is taken to be `clear_all()`.
#[verifier::external_body]
fn clear_bytes() -> (out: Vec<u8>)
    ensures
        out@ == clear_all(),
{
    let mut sequence = String::new();
    let _ = Clear(ClearType::All).write_ansi(&mut sequence);
    sequence.into_bytes()
}

/// Appends a copy of `text` to `bytes`.
fn append_bytes(bytes: &mut Vec<u8>, text: &Vec<u8>)
    ensures
        final(bytes)@ == old(bytes)@ + text@,
{
    let mut i: usize = 0;
    while i < text.len()
        invariant
            i <= text.len(),
            bytes@ == old(bytes)@ + text@.take(i as int),
        decreases text.len() - i,
    {
        bytes.push(text[i]);
        i += 1;
    }
}

/// Encodes a frame for the terminal.
///
/// Fails with `OutOfRange`, and only so, where an operation starts at a cell
/// that no cursor position can name.
pub fn encode(ops: &Vec<DrawOp>) -> (out: Result<Vec<u8>, RenderError>)
    ensures
        out is Ok <==> forall|i: int| 0 <= i < ops.len() ==> addressable(#[trigger] ops[i]@),
        out matches Ok(bytes) ==> bytes@ == encoding(paints(ops@)),
        out matches Err(e) ==> e == RenderError::OutOfRange,
{
    let mut bytes: Vec<u8> = Vec::new();
    let mut i: usize = 0;
    while i < ops.len()
        invariant
            i <= ops.len(),
            forall|k: int| 0 <= k < i ==> addressable(#[trigger] ops[k]@),
            bytes@ == encoding(paints(ops@).take(i as int)),
        decreases ops.len() - i,
    {
        let ghost before = paints(ops@).take(i as int);
        let ghost after = paints(ops@).take(i + 1);
        assert(after.drop_last() == before);
        assert(after.last() == ops[i as int]@);
        match &ops[i] {
            DrawOp::Clear => {
                let mut chunk = clear_bytes();
                bytes.append(&mut chunk);
            },
            DrawOp::Put { col, row, text } => {
                if *col > LAST_CELL || *row > LAST_CELL {
                    return Err(RenderError::OutOfRange);
                }
                let mut chunk = cursor_bytes(*col, *row);
                bytes.append(&mut chunk);
                append_bytes(&mut bytes, text);
            },
        }
        i += 1;
    }
    assert(paints(ops@).take(i as int) == paints(ops@));
    Ok(bytes)
}

} // verus!
