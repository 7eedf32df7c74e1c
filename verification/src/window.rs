//! The chat window: a double-line frame, the tail of the transcript inside
//! it, and the prompt row under it.
//!
//! For a rectangle at `(x, y)` of width `w` and height `h` the frame is laid
//! out as follows. The top bar lies on row `y`. Rows `y + 1 ..= y + h - 2`
//! are the interior and show the transcript. The divider lies on row
//! `y + h - 1`, the last row of the rectangle. Under the rectangle come the
//! prompt row, `y + h`, and the bottom bar, `y + h + 1`. Bars span the
//! columns `x ..= x + w - 1`; the sides stand in the first and the last of
//! those columns.

use crate::layout::{Rect, RenderError, ViewportSize};
use crate::screen::{addressable, encode, encoding, paints, DrawOp, Paint};
use crate::text::{truncate, truncated};
use vstd::prelude::*;
use vstd::slice::slice_subrange;
use vstd::utf8::encode_utf8;

verus! {

/// `═`, the horizontal bar.
pub const HORIZONTAL: char = '\u{2550}';

/// `║`, the vertical bar.
pub const VERTICAL: char = '\u{2551}';

/// `╔`, the top left corner.
pub const TOP_LEFT: char = '\u{2554}';

/// `╗`, the top right corner.
pub const TOP_RIGHT: char = '\u{2557}';

/// `╚`, the bottom left corner.
pub const BOTTOM_LEFT: char = '\u{255A}';

/// `╝`, the bottom right corner.
pub const BOTTOM_RIGHT: char = '\u{255D}';

/// `╠`, the left end of the divider.
pub const TEE_LEFT: char = '\u{2560}';

/// `╣`, the right end of the divider.
pub const TEE_RIGHT: char = '\u{2563}';

/// A horizontal bar `width` cells long: an end glyph, `width - 2` bar glyphs
/// and the other end glyph.
pub open spec fn bar_glyphs(left: char, width: int, right: char) -> Seq<char> {
    seq![left] + Seq::new((width - 2) as nat, |i: int| HORIZONTAL) + seq![right]
}

/// The operation that writes `glyphs` from the cell `(col, row)` on.
pub open spec fn put_glyphs(col: int, row: int, glyphs: Seq<char>) -> Paint {
    Paint::Put { col, row, text: encode_utf8(glyphs) }
}

/// The `i`-th side glyph of a frame: the left and the right side of each
/// interior row in turn, from the top row down.
pub open spec fn side(rect: Rect, i: int) -> Paint {
    put_glyphs(
        if i % 2 == 0 {
            rect.x as int
        } else {
            rect.x + rect.w - 1
        },
        rect.y + 1 + i / 2,
        seq![VERTICAL],
    )
}

/// The frame of a rectangle: top bar, divider, bottom bar, and the two sides
/// of every interior row.
pub open spec fn border(rect: Rect) -> Seq<Paint> {
    seq![
        put_glyphs(rect.x as int, rect.y as int, bar_glyphs(TOP_LEFT, rect.w as int, TOP_RIGHT)),
        put_glyphs(
            rect.x as int,
            rect.y + rect.h - 1,
            bar_glyphs(TEE_LEFT, rect.w as int, TEE_RIGHT),
        ),
        put_glyphs(
            rect.x as int,
            rect.y + rect.h + 1,
            bar_glyphs(BOTTOM_LEFT, rect.w as int, BOTTOM_RIGHT),
        ),
    ] + Seq::new((2 * rect.interior_rows()) as nat, |i: int| side(rect, i))
}

/// Index of the first line that a window of `rows` rows shows of `len`
/// lines: the window shows the last `rows` lines, or all where there are
/// fewer.
pub open spec fn first_visible(len: int, rows: int) -> int {
    if len > rows {
        len - rows
    } else {
        0
    }
}

/// The lines that a window of `rows` rows shows, oldest first.
pub open spec fn visible<T>(lines: Seq<T>, rows: int) -> Seq<T> {
    lines.subrange(first_visible(lines.len() as int, rows), lines.len() as int)
}

/// The text of each line of a list.
pub open spec fn texts(lines: Seq<String>) -> Seq<Seq<char>> {
    Seq::new(lines.len(), |i: int| lines[i]@)
}

/// The transcript tail inside a frame: each visible line on a row of its
/// own, from the first interior row down, starting one column right of the
/// left side and cut to the rectangle's width in bytes.
pub open spec fn chat_lines(chat: Seq<Seq<char>>, rect: Rect) -> Seq<Paint> {
    let shown = visible(chat, rect.interior_rows());
    Seq::new(
        shown.len(),
        |i: int|
            Paint::Put {
                col: rect.x + 1,
                row: rect.y + 1 + i,
                text: truncated(encode_utf8(shown[i]), rect.w as int),
            },
    )
}

/// The prompt row of a viewport: the left side, the input line from the
/// third column on, cut to the viewport's width in bytes, and the right
/// side, written last.
pub open spec fn prompt_bar(input: Seq<char>, viewport: ViewportSize) -> Seq<Paint> {
    let row = viewport.height - 2;
    seq![
        put_glyphs(0, row, seq![VERTICAL]),
        Paint::Put { col: 2, row, text: truncated(encode_utf8(input), viewport.width as int) },
        put_glyphs(viewport.width - 1, row, seq![VERTICAL]),
    ]
}

/// A whole frame: clear the screen, draw the chat window over all but the
/// two bottom rows, draw the prompt row.
pub open spec fn frame(chat: Seq<Seq<char>>, input: Seq<char>, viewport: ViewportSize) -> Seq<
    Paint,
> {
    seq![Paint::Clear] + border(viewport.chat_rect()) + chat_lines(chat, viewport.chat_rect())
        + prompt_bar(input, viewport)
}

/// The bytes of a horizontal bar.
fn bar(left: char, width: u16, right: char) -> (out: Vec<u8>)
    requires
        width >= 2,
    ensures
        out@ == encode_utf8(bar_glyphs(left, width as int, right)),
{
    let mut glyphs = String::new();
    glyphs.push(left);
    let mut i: u16 = 2;
    while i < width
        invariant
            2 <= i <= width,
            glyphs@ == seq![left] + Seq::new((i - 2) as nat, |k: int| HORIZONTAL),
        decreases width - i,
    {
        glyphs.push(HORIZONTAL);
        i += 1;
    }
    glyphs.push(right);
    assert(glyphs@ == bar_glyphs(left, width as int, right));
    glyphs.as_str().as_bytes_vec()
}

/// The bytes of one glyph.
fn glyph(ch: char) -> (out: Vec<u8>)
    ensures
        out@ == encode_utf8(seq![ch]),
{
    let mut glyphs = String::new();
    glyphs.push(ch);
    assert(glyphs@ == seq![ch]);
    glyphs.as_str().as_bytes_vec()
}

/// Draws the frame of `boundary` into `out`.
///
/// A rectangle that cannot be framed is refused, and `out` is left as it
/// was.
pub fn draw_window(out: &mut Vec<DrawOp>, boundary: &Rect) -> (done: Result<(), RenderError>)
    ensures
        done is Ok <==> boundary.defect() is None,
        done is Ok ==> paints(final(out)@) == paints(old(out)@) + border(*boundary),
        done matches Err(e) ==> boundary.defect() == Some(e) && final(out)@ == old(out)@,
{
    match boundary.check() {
        Err(e) => {
            return Err(e);
        },
        Ok(()) => {},
    }
    let x: u16 = boundary.x;
    let y: u16 = boundary.y;
    let w: u16 = boundary.w;
    let h: u16 = boundary.h;
    let ghost before = paints(out@);
    out.push(DrawOp::Put { col: x, row: y, text: bar(TOP_LEFT, w, TOP_RIGHT) });
    out.push(DrawOp::Put { col: x, row: y + h - 1, text: bar(TEE_LEFT, w, TEE_RIGHT) });
    out.push(DrawOp::Put { col: x, row: y + h + 1, text: bar(BOTTOM_LEFT, w, BOTTOM_RIGHT) });
    assert(paints(out@) == before + border(*boundary).take(3));
    let mut r: u16 = 1;
    while r < h - 1
        invariant
            boundary.defect() is None,
            x == boundary.x,
            y == boundary.y,
            w == boundary.w,
            h == boundary.h,
            1 <= r <= h - 1,
            paints(out@) == before + border(*boundary).take(3 + 2 * (r - 1)),
        decreases h - r,
    {
        let ghost k: int = 2 * (r - 1);
        let ghost drawn = paints(out@);
        out.push(DrawOp::Put { col: x, row: y + r, text: glyph(VERTICAL) });
        out.push(DrawOp::Put { col: x + w - 1, row: y + r, text: glyph(VERTICAL) });
        assert(paints(out@) == before + border(*boundary).take(3 + 2 * r)) by {
            assert(k % 2 == 0 && k / 2 == r - 1 && (k + 1) % 2 == 1 && (k + 1) / 2 == r - 1);
            assert(border(*boundary)[3 + k] == side(*boundary, k));
            assert(border(*boundary)[3 + k + 1] == side(*boundary, k + 1));
            assert(paints(out@) == drawn.push(side(*boundary, k)).push(side(*boundary, k + 1)));
            assert(border(*boundary).take(3 + 2 * r) == border(*boundary).take(3 + k).push(
                side(*boundary, k),
            ).push(side(*boundary, k + 1)));
        }
        r += 1;
    }
    assert(border(*boundary).take(3 + 2 * (h - 2)) == border(*boundary));
    Ok(())
}

/// The lines that a window of `rows` rows shows: the last `rows` lines of
/// `chat`, or all of them where there are fewer, oldest first.
pub fn visible_lines(chat: &[String], rows: usize) -> (shown: &[String])
    ensures
        shown@ == visible(chat@, rows as int),
{
    let n: usize = chat.len();
    let start: usize = if n > rows {
        n - rows
    } else {
        0
    };
    slice_subrange(chat, start, n)
}

/// Draws the chat window into `out`: the frame of `boundary`, then the tail
/// of `chat` in its interior.
///
/// A rectangle that cannot be framed is refused, and `out` is left as it
/// was.
pub fn draw_chat_in_window(out: &mut Vec<DrawOp>, chat: &[String], boundary: Rect) -> (done: Result<
    (),
    RenderError,
>)
    ensures
        done is Ok <==> boundary.defect() is None,
        done is Ok ==> paints(final(out)@) == paints(old(out)@) + border(boundary) + chat_lines(
            texts(chat@),
            boundary,
        ),
        done matches Err(e) ==> boundary.defect() == Some(e) && final(out)@ == old(out)@,
{
    let ghost before = paints(out@);
    match draw_window(out, &boundary) {
        Err(e) => {
            return Err(e);
        },
        Ok(()) => {},
    }
    let rows: u16 = boundary.h - 2;
    let shown = visible_lines(chat, rows as usize);
    let ghost lines = chat_lines(texts(chat@), boundary);
    assert(texts(shown@) == visible(texts(chat@), rows as int));
    let mut i: u16 = 0;
    while (i as usize) < shown.len()
        invariant
            boundary.defect() is None,
            rows == boundary.h - 2,
            shown@.len() <= rows,
            texts(shown@) == visible(texts(chat@), rows as int),
            lines == chat_lines(texts(chat@), boundary),
            i <= shown@.len(),
            paints(out@) == before + border(boundary) + lines.take(i as int),
        decreases shown@.len() - i,
    {
        let text = truncate(shown[i as usize].as_str(), boundary.w as usize);
        assert(lines[i as int] == (Paint::Put {
            col: boundary.x + 1,
            row: boundary.y + 1 + i,
            text: text@,
        }));
        let ghost drawn = paints(out@);
        out.push(DrawOp::Put { col: boundary.x + 1, row: boundary.y + 1 + i, text });
        assert(paints(out@) == drawn.push(lines[i as int]));
        assert(lines.take(i + 1) == lines.take(i as int).push(lines[i as int]));
        i += 1;
    }
    assert(lines.take(i as int) == lines);
    Ok(())
}

/// Draws the prompt row of `viewport` into `out`.
///
/// A viewport without room for the chat window and the prompt is refused
/// as `TooSmall`, and `out` is left as it was.
pub fn draw_prompt_bar(out: &mut Vec<DrawOp>, input: &str, viewport: ViewportSize) -> (done: Result<
    (),
    RenderError,
>)
    ensures
        done is Ok <==> viewport.fits(),
        done is Ok ==> paints(final(out)@) == paints(old(out)@) + prompt_bar(input@, viewport),
        done matches Err(e) ==> e == RenderError::TooSmall && final(out)@ == old(out)@,
{
    if viewport.width < 2 || viewport.height < 4 {
        return Err(RenderError::TooSmall);
    }
    let row: u16 = viewport.height - 2;
    out.push(DrawOp::Put { col: 0, row, text: glyph(VERTICAL) });
    out.push(DrawOp::Put { col: 2, row, text: truncate(input, viewport.width as usize) });
    out.push(DrawOp::Put { col: viewport.width - 1, row, text: glyph(VERTICAL) });
    Ok(())
}

/// Every operation of a frame starts at a cell that the terminal can
/// address.
pub proof fn lemma_frame_addressable(
    chat: Seq<Seq<char>>,
    input: Seq<char>,
    viewport: ViewportSize,
)
    requires
        viewport.fits(),
    ensures
        forall|i: int|
            0 <= i < frame(chat, input, viewport).len() ==> addressable(
                #[trigger] frame(chat, input, viewport)[i],
            ),
{
}

/// Composes one frame: the screen cleared, the chat window over all but the
/// two bottom rows of the viewport, the prompt row.
///
/// A viewport narrower than two cells or lower than four rows has no room
/// for the layout and is refused as `TooSmall`.
pub fn compose_frame(chat: &[String], input: &str, viewport: ViewportSize) -> (out: Result<
    Vec<DrawOp>,
    RenderError,
>)
    ensures
        out is Ok <==> viewport.fits(),
        out matches Ok(ops) ==> paints(ops@) == frame(texts(chat@), input@, viewport),
        out matches Err(e) ==> e == RenderError::TooSmall,
{
    let boundary = match viewport.chat_window() {
        Err(e) => {
            return Err(e);
        },
        Ok(rect) => rect,
    };
    let mut ops: Vec<DrawOp> = Vec::new();
    ops.push(DrawOp::Clear);
    assert(paints(ops@) == seq![Paint::Clear]);
    match draw_chat_in_window(&mut ops, chat, boundary) {
        Err(e) => {
            return Err(e);
        },
        Ok(()) => {},
    }
    match draw_prompt_bar(&mut ops, input, viewport) {
        Err(e) => {
            return Err(e);
        },
        Ok(()) => {},
    }
    Ok(ops)
}

/// Renders one frame as the bytes to write to the terminal.
///
/// A viewport narrower than two cells or lower than four rows has no room
/// for the layout and is refused as `TooSmall`.
pub fn render_frame(chat: &[String], input: &str, viewport: ViewportSize) -> (out: Result<
    Vec<u8>,
    RenderError,
>)
    ensures
        out is Ok <==> viewport.fits(),
        out matches Ok(bytes) ==> bytes@ == encoding(frame(texts(chat@), input@, viewport)),
        out matches Err(e) ==> e == RenderError::TooSmall,
{
    let ops = match compose_frame(chat, input, viewport) {
        Err(e) => {
            return Err(e);
        },
        Ok(ops) => ops,
    };
    proof {
        lemma_frame_addressable(texts(chat@), input@, viewport);
        assert forall|i: int| 0 <= i < ops.len() implies addressable(#[trigger] ops[i]@) by {
            assert(paints(ops@)[i] == ops[i]@);
        }
    }
    encode(&ops)
}

} // verus!
