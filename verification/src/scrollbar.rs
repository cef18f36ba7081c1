//! The scrollbar: which cells of its length show the part of the content that
//! is in view.
//!
//! Rows of the content are scaled to cells of the bar by the ratio of the
//! bar's span to the content's length. No case is made of content that is
//! shorter than the bar: its filled segment may cover the whole bar and reach
//! beyond it.

use vstd::prelude::*;
use crate::color::Color;
use crate::layout::Rect;

verus! {

/// A scrollbar for content of `length` rows of which those from `start` up to
/// `end` are in view.
#[derive(Debug, Clone, Copy, PartialEq, Eq, Structural)]
pub struct CustomScrollbar {
    /// First row in view.
    pub start: i16,
    /// First row behind the view.
    pub end: i16,
    /// Number of rows of the content.
    pub length: i16,
    /// Colour of the filled segment.
    pub color: Color,
    /// Colour of the rest.
    pub track_color: Color,
    /// Whether the bar runs from top to bottom rather than from left to right.
    pub vertical: bool,
}

/// The cell at which row `at` of content of `length` rows falls on a bar of
/// `span` cells: `at`, or 0 if it is negative, times `span / length`, rounded
/// down and held to what 16 bits can count. Content without rows puts every row
/// but the first behind the last cell; a negative length puts every row at the
/// first cell.
pub open spec fn scaled(at: int, length: int, span: int) -> int {
    let row = if at > 0 {
        at
    } else {
        0
    };
    if length > 0 {
        if (row * span) / length > 0xffff {
            0xffff
        } else {
            (row * span) / length
        }
    } else if length == 0 && row > 0 && span > 0 {
        0xffff
    } else {
        0
    }
}

/// Where row `at` falls on a bar of `span` cells.
pub fn scale(at: i16, length: i16, span: u16) -> (cell: u16)
    ensures
        cell == scaled(at as int, length as int, span as int),
{
    let row: u32 = if at > 0 {
        at as u32
    } else {
        0
    };
    if length > 0 {
        assert(row * span <= 0x7fff * 0xffff) by (nonlinear_arith)
            requires
                row <= 0x7fff,
                span <= 0xffff,
        ;
        let cell: u32 = (row * span as u32) / (length as u32);
        if cell > 0xffff {
            0xffff
        } else {
            cell as u16
        }
    } else if length == 0 && row > 0 && span > 0 {
        0xffff
    } else {
        0
    }
}

impl CustomScrollbar {
    /// The cells along the bar that are filled, as the first and the one behind
    /// the last, on a bar of `span` cells.
    pub fn thumb(&self, span: u16) -> (cells: (u16, u16))
        ensures
            cells.0 == scaled(self.start as int, self.length as int, span as int),
            cells.1 == scaled(self.end as int, self.length as int, span as int),
    {
        (scale(self.start, self.length, span), scale(self.end, self.length, span))
    }

    /// Whether the cell in column `x` and row `y` of `area`, both counted within
    /// it, belongs to the filled segment when the bar is drawn into `area`.
    pub open spec fn filled(self, area: Rect, x: u16, y: u16) -> bool {
        let span = if self.vertical {
            area.height
        } else {
            area.width
        };
        let along = if self.vertical {
            y
        } else {
            x
        };
        scaled(self.start as int, self.length as int, span as int) <= along < scaled(
            self.end as int,
            self.length as int,
            span as int,
        )
    }

    /// Whether a cell of `area` shows the filled segment rather than the track.
    pub fn is_filled(&self, area: Rect, x: u16, y: u16) -> (b: bool)
        ensures
            b == self.filled(area, x, y),
    {
        let span = if self.vertical {
            area.height
        } else {
            area.width
        };
        let along = if self.vertical {
            y
        } else {
            x
        };
        let (first, behind) = self.thumb(span);
        first <= along && along < behind
    }
}

} // verus!
