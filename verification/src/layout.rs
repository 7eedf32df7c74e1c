//! Screen geometry: the viewport and the rectangles drawn into it.

use vstd::prelude::*;

verus! {

/// Why a rectangle cannot be drawn.
#[derive(Clone, Copy, Debug, PartialEq, Eq, Structural)]
pub enum RenderError {
    /// The rectangle is narrower or lower than two cells, so it has no room
    /// for a border on each side.
    TooSmall,
    /// Some cell of the frame lies beyond the last addressable cell.
    OutOfRange,
}

/// The last column and row index that a cursor position can name.
pub const LAST_CELL: u16 = 65534;

/// A rectangular region of the screen: origin, width and height in cells.
#[derive(Clone, Copy, Debug, PartialEq, Eq, Structural)]
pub struct Rect {
    pub x: u16,
    pub y: u16,
    pub w: u16,
    pub h: u16,
}

impl Rect {
    /// What stops this rectangle from being framed, if anything.
    ///
    /// The frame of a rectangle spans its columns `x .. x + w` and reaches
    /// two rows below it, down to row `y + h + 1`.
    pub open spec fn defect(self) -> Option<RenderError> {
        if self.w < 2 || self.h < 2 {
            Some(RenderError::TooSmall)
        } else if self.x + self.w - 1 > LAST_CELL || self.y + self.h + 1 > LAST_CELL {
            Some(RenderError::OutOfRange)
        } else {
            None
        }
    }

    /// Number of text rows between the top bar and the divider.
    pub open spec fn interior_rows(self) -> int {
        self.h - 2
    }

    /// Accepts the rectangle for drawing, or says why it cannot be drawn.
    pub fn check(&self) -> (verdict: Result<(), RenderError>)
        ensures
            verdict is Ok <==> self.defect() is None,
            verdict matches Err(e) ==> self.defect() == Some(e),
    {
        if self.w < 2 || self.h < 2 {
            return Err(RenderError::TooSmall);
        }
        let right: u32 = self.x as u32 + self.w as u32 - 1;
        let bottom: u32 = self.y as u32 + self.h as u32 + 1;
        if right > LAST_CELL as u32 || bottom > LAST_CELL as u32 {
            return Err(RenderError::OutOfRange);
        }
        Ok(())
    }
}

/// Size of the terminal in character cells.
#[derive(Clone, Copy, Debug, PartialEq, Eq, Structural)]
pub struct ViewportSize {
    pub width: u16,
    pub height: u16,
}

impl ViewportSize {
    pub fn new(width: u16, height: u16) -> (size: ViewportSize)
        ensures
            size == (ViewportSize { width, height }),
    {
        ViewportSize { width, height }
    }

    /// Takes the size reported by a resize event.
    pub fn resize(&mut self, width: u16, height: u16)
        ensures
            *final(self) == (ViewportSize { width, height }),
    {
        self.width = width;
        self.height = height;
    }

    /// The chat window of a viewport: its full width from the top left
    /// corner, with the two bottom rows left to the prompt.
    pub open spec fn chat_rect(self) -> Rect {
        Rect { x: 0, y: 0, w: self.width, h: (self.height - 2) as u16 }
    }

    /// Whether the viewport has room for the chat window and the prompt.
    pub open spec fn fits(self) -> bool {
        self.width >= 2 && self.height >= 4
    }

    /// The rectangle of the chat window, or `TooSmall` where the viewport
    /// has no room for it.
    pub fn chat_window(&self) -> (out: Result<Rect, RenderError>)
        ensures
            out is Ok <==> self.fits(),
            out matches Ok(rect) ==> rect == self.chat_rect() && rect.defect() is None,
            out matches Err(e) ==> e == RenderError::TooSmall,
    {
        if self.width < 2 || self.height < 4 {
            return Err(RenderError::TooSmall);
        }
        Ok(Rect { x: 0, y: 0, w: self.width, h: self.height - 2 })
    }
}

} // verus!
