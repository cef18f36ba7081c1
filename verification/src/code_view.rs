//! The code view: a window of the mirrored memory, one instruction word to a
//! row, with its breakpoint marker, the program counter and the words that
//! are literal operands.

use vstd::prelude::*;
use crate::app::{App, AppView, CODE_ROWS};
use crate::color::Color;
use crate::decoder::{
    decoded_views, literal_rows_left, literal_run, operand_text, operands_of, run_of, words_shown,
    Decoded, DecodedView,
};
use crate::layout::{least, most};
use crate::mirror::{word_at, PC_ADDRESS};
use crate::scrollbar::CustomScrollbar;
use crate::text::string_of;

verus! {

/// What stands at the left edge of a row of the code view.
#[derive(Debug, Clone, Copy, PartialEq, Eq, Structural)]
pub enum Marker {
    /// A breakpoint is set at the row's address.
    Breakpoint,
    /// No breakpoint is set, and the pointer is over the row.
    Hover,
    /// Neither.
    Clear,
}

/// A row of the code view.
#[derive(Debug, Clone, PartialEq, Eq)]
pub struct CodeRow {
    /// The address of the word.
    pub addr: u16,
    /// The word.
    pub value: u16,
    /// What stands at the left edge of the row.
    pub marker: Marker,
    /// Whether the program counter register holds the row's address.
    pub at_pc: bool,
    /// How the decoder writes the word as an instruction.
    pub opcode: String,
    /// The words behind the instruction, where they are its literal operands.
    pub literals: Option<String>,
    /// Whether the word is likely a literal operand or has some itself.
    pub likely_literal: bool,
}

/// A row with its texts as sequences.
pub struct CodeRowView {
    pub addr: u16,
    pub value: u16,
    pub marker: Marker,
    pub at_pc: bool,
    pub opcode: Seq<char>,
    pub literals: Option<Seq<char>>,
    pub likely_literal: bool,
}

impl View for CodeRow {
    type V = CodeRowView;

    open spec fn view(&self) -> CodeRowView {
        CodeRowView {
            addr: self.addr,
            value: self.value,
            marker: self.marker,
            at_pc: self.at_pc,
            opcode: self.opcode@,
            literals: match self.literals {
                Some(text) => Some(text@),
                None => None,
            },
            likely_literal: self.likely_literal,
        }
    }
}

/// The number of rows of the content that the scrollbar of the code view
/// stands for.
pub const CODE_SCROLL_LENGTH: i16 = 0x60;

/// `value` held to what fits 16 bits with a sign.
pub open spec fn held_i16(value: int) -> i16 {
    if value < -0x8000 {
        -0x8000i16
    } else if value > 0x7fff {
        0x7fffi16
    } else {
        value as i16
    }
}

impl AppView {
    /// The number of rows of the code view for `decoded` decoded words: one
    /// for each word of the window that the mirror holds and that has a
    /// 16-bit address.
    pub open spec fn code_row_count(self, decoded: int) -> int {
        most(
            0,
            least(
                least(CODE_ROWS as int, decoded),
                least(self.sim_state.memory.len() - self.code_offset, 0x10000 - self.code_offset),
            ),
        )
    }

    /// Whether the pointer is over row `i` of the code view, as the view is
    /// scrolled and drawn into the main panel.
    pub open spec fn hovered(self, i: int) -> bool {
        match self.mouse.pos {
            Some(at) => self.ui_regions.main.holds(at) && i >= self.code_scroll && at.y
                == self.ui_regions.main.y + (i - self.code_scroll),
            None => false,
        }
    }

    /// Row `i` of the code view, for the decoded words of the window.
    pub open spec fn code_row(self, decoded: Seq<DecodedView>, i: int) -> CodeRowView {
        let addr = self.code_offset + i;
        CodeRowView {
            addr: addr as u16,
            value: self.sim_state.memory[addr],
            marker: if self.breakpoints.contains(addr as u16) {
                Marker::Breakpoint
            } else if self.hovered(i) {
                Marker::Hover
            } else {
                Marker::Clear
            },
            at_pc: addr == word_at(self.sim_state.memory, PC_ADDRESS as int),
            opcode: decoded[i].text,
            literals: if literal_run(decoded[i]) is Some {
                Some(operand_text(self.sim_state.memory, addr, words_shown(decoded[i])))
            } else {
                None
            },
            likely_literal: literal_rows_left(decoded, i) > 0,
        }
    }

    /// The scrollbar of the code view.
    pub open spec fn code_bar(self) -> CustomScrollbar {
        let start = self.code_scroll - self.code_offset;
        CustomScrollbar {
            start: held_i16(start),
            end: held_i16(start + self.ui_regions.main.height - 1 - self.code_offset),
            length: CODE_SCROLL_LENGTH,
            color: Color::White,
            track_color: Color::DarkGray,
            vertical: true,
        }
    }
}

/// `value` held to what fits 16 bits with a sign.
pub fn hold_i16(value: i128) -> (r: i16)
    ensures
        r == held_i16(value as int),
{
    if value < -0x8000 {
        -0x8000
    } else if value > 0x7fff {
        0x7fff
    } else {
        value as i16
    }
}

impl App {
    /// The window of the code view: its first address and the number of words
    /// for which the view wants a decoded word.
    pub fn code_window(&self) -> (window: (usize, usize))
        ensures
            window.0 == self.code_offset,
            window.1 == self@.code_row_count(CODE_ROWS as int),
            window.1 > 0 ==> window.0 + window.1 <= self@.sim_state.memory.len(),
    {
        let n = self.sim_state.memory.len();
        let start = self.code_offset;
        if start >= n || start >= 0x10000 {
            return (start, 0);
        }
        let mut count: usize = CODE_ROWS;
        if n - start < count {
            count = n - start;
        }
        if 0x10000 - start < count {
            count = 0x10000 - start;
        }
        (start, count)
    }

    /// Whether the pointer is over row `i` of the code view.
    pub fn is_hovered(&self, i: usize) -> (b: bool)
        ensures
            b == self@.hovered(i as int),
    {
        let area = self.ui_regions.main;
        match self.mouse.pos {
            Some(at) => area.contains(at) && i >= self.code_scroll && (at.y as usize) - (
            area.y as usize) == i - self.code_scroll,
            None => false,
        }
    }

    /// The rows of the code view, for the decoded words of its window.
    pub fn code_rows(&self, decoded: &Vec<Decoded>) -> (rows: Vec<CodeRow>)
        ensures
            rows.len() == self@.code_row_count(decoded.len() as int),
            forall|i: int|
                0 <= i < rows.len() ==> (#[trigger] rows[i])@ == self@.code_row(
                    decoded_views(decoded@),
                    i,
                ),
    {
        let (start, window) = self.code_window();
        let count: usize = if decoded.len() < window {
            decoded.len()
        } else {
            window
        };
        let pc = self.sim_state.word(PC_ADDRESS);
        let ghost words = decoded_views(decoded@);
        let mut rows: Vec<CodeRow> = Vec::new();
        let mut left: u8 = 0;
        let mut i: usize = 0;
        while i < count
            invariant
                i <= count,
                count <= decoded.len(),
                count <= CODE_ROWS,
                count > 0 ==> start + count <= self.sim_state.memory.len() && start + count
                    <= 0x10000,
                start == self.code_offset,
                pc == word_at(self@.sim_state.memory, PC_ADDRESS as int),
                words == decoded_views(decoded@),
                left <= 5,
                left == if i > 0 {
                    literal_rows_left(words, i - 1)
                } else {
                    0
                },
                rows.len() == i,
                forall|k: int| 0 <= k < i ==> (#[trigger] rows[k])@ == self@.code_row(words, k),
            decreases count - i,
        {
            let word = &decoded[i];
            assert(words[i as int] == word@);
            let addr: usize = start + i;
            let run = run_of(word);
            let (literals, now) = match run {
                Some(n) => (Some(string_of(&operands_of(&self.sim_state.memory, addr, word))), n),
                None => (
                    None,
                    if left > 0 {
                        left - 1
                    } else {
                        0
                    },
                ),
            };
            assert(now == literal_rows_left(words, i as int));
            let marker = if self.breakpoints.contains(addr as u16) {
                Marker::Breakpoint
            } else if self.is_hovered(i) {
                Marker::Hover
            } else {
                Marker::Clear
            };
            let row = CodeRow {
                addr: addr as u16,
                value: self.sim_state.memory[addr],
                marker,
                at_pc: addr == pc as usize,
                opcode: word.text.clone(),
                literals,
                likely_literal: now > 0,
            };
            assert(row@ == self@.code_row(words, i as int));
            rows.push(row);
            left = now;
            i += 1;
        }
        rows
    }

    /// The rows of the code view that are drawn, of `rows` rows in all: the
    /// first, and the one behind the last.
    pub fn visible_code_rows(&self, rows: usize) -> (range: (usize, usize))
        ensures
            range.0 == least(self.code_scroll as int, rows as int),
            range.1 == least(self.code_scroll + self.ui_regions.main.height, rows as int),
    {
        let first = if self.code_scroll < rows {
            self.code_scroll
        } else {
            rows
        };
        let height = self.ui_regions.main.height as usize;
        let behind = if rows - first < height {
            rows
        } else {
            first + height
        };
        (first, behind)
    }

    /// The scrollbar of the code view.
    pub fn code_scrollbar(&self) -> (bar: CustomScrollbar)
        ensures
            bar == self@.code_bar(),
    {
        let start: i128 = self.code_scroll as i128 - self.code_offset as i128;
        let end: i128 = start + self.ui_regions.main.height as i128 - 1 - self.code_offset as i128;
        CustomScrollbar {
            start: hold_i16(start),
            end: hold_i16(end),
            length: CODE_SCROLL_LENGTH,
            color: Color::White,
            track_color: Color::DarkGray,
            vertical: true,
        }
    }
}

} // verus!
