//! The smaller panels of the console: what the status line, the register and
//! watch panels, the log, the command line and the key map show, and where.
//!
//! Cells within a panel are counted from the panel's top left corner.

use vstd::prelude::*;
use crate::app::{App, AppView, WatchEntry, WatchView};
use crate::code_view::{held_i16, hold_i16};
use crate::color::Color;
use crate::layout::{clamped, least, most, Rect};
use crate::mirror::word_at;
use crate::number::{decimal_text, hex_text, number_text};
use crate::scrollbar::CustomScrollbar;
use crate::text::{append, append_str, chars_of, string_of};

verus! {

/// How the run state is called in the status panel, and in which colour.
pub open spec fn run_label(running: bool, debug_mode: bool) -> (Seq<char>, Color) {
    if running && debug_mode {
        ("DEBUG RUN"@, Color::LightYellow)
    } else if running {
        ("RUN"@, Color::LightGreen)
    } else if debug_mode {
        ("DEBUG HALT"@, Color::LightRed)
    } else {
        ("HALT"@, Color::LightRed)
    }
}

/// The line of the status panel that names the instruction at which the
/// program stands, which the decoder calls `opcode`.
pub open spec fn instruction_text(addr: u16, word: u16, opcode: Seq<char>) -> Seq<char> {
    seq!['@'] + number_text(addr as nat, 16, 4) + seq!['['] + number_text(word as nat, 16, 4)
        + seq![']', ':', ' '] + opcode
}

/// The number of registers.
pub const REGISTERS: usize = 16;

/// The columns between the register names of one row of the register panel.
pub const REGISTER_STRIDE: u16 = 26;

/// A register in the register panel.
#[derive(Debug, Clone, PartialEq, Eq)]
pub struct RegisterCell {
    /// The column of the name within the panel.
    pub column: u16,
    /// The row within the panel.
    pub row: u16,
    /// The name, as it is shown.
    pub name: String,
    /// The colour of the name.
    pub color: Color,
    /// The four words of the register.
    pub values: [u16; 4],
}

/// The name of register `index` as the register panel shows it.
pub open spec fn register_name(index: int) -> Seq<char> {
    if index < 8 {
        "  c"@ + number_text(index as nat, 10, 1) + ":"@
    } else if index < 15 {
        "  r"@ + number_text((index - 8) as nat, 10, 1) + ":"@
    } else {
        "  ri:"@
    }
}

/// A row of a watch panel: four words from an address on.
#[derive(Debug, Clone, Copy, PartialEq, Eq)]
pub struct WatchRow {
    /// The column of the address within the panel.
    pub column: u16,
    /// The row within the panel.
    pub row: u16,
    /// The address of the first word.
    pub addr: usize,
    /// The four words.
    pub values: [u16; 4],
}

/// The height of the watch panel of an entry of `size` groups of four words:
/// a row for every two groups, one at least, and the frame.
pub open spec fn watch_height(size: u16) -> int {
    most(size as int / 2, 1) + 2
}

/// The row of the screen at which the watch panel of entry `i` begins, where
/// the first begins at row `top`; no panel begins behind the last row that
/// can be counted.
pub open spec fn watch_top(watches: Seq<WatchView>, top: int, i: int) -> int
    decreases i,
{
    if i <= 0 {
        top
    } else {
        least(watch_top(watches, top, i - 1) + watch_height(watches[i - 1].size), 0xffff)
    }
}

/// The number of rows of four words that the watch panel of an entry shows
/// when it has room for all: from the entry's address up to the end of the
/// last group of four that the entry reaches into, and one row at least.
pub open spec fn watch_rows(entry: WatchView) -> int {
    let start = entry.addr as int;
    let end = ((start + entry.size * 4 + 3) / 4) * 4;
    if end <= start {
        1
    } else {
        (end - start + 3) / 4
    }
}

/// The number of rows of four words for which a watch panel of the given
/// height has room within its frame: two for each row of the panel between
/// its top and bottom border.
pub open spec fn watch_room(height: u16) -> int {
    most(0, 2 * (height - 2))
}

impl AppView {
    /// The address of the instruction at which the program stands, and the
    /// instruction word.
    pub open spec fn instruction(self) -> (u16, u16) {
        (self.sim_state.pc(), word_at(self.sim_state.memory, self.sim_state.pc() as int))
    }

    /// The words of register `index`.
    pub open spec fn register_words(self, index: int) -> [u16; 4] {
        [
            word_at(self.sim_state.memory, index * 4),
            word_at(self.sim_state.memory, index * 4 + 1),
            word_at(self.sim_state.memory, index * 4 + 2),
            word_at(self.sim_state.memory, index * 4 + 3),
        ]
    }

    /// The rectangle of the watch panel of entry `i` on a screen `screen`:
    /// as wide as the watch region, below the panels of the entries before it,
    /// and cut at the edges of the screen.
    pub open spec fn watch_rect(self, screen: Rect, i: int) -> Rect {
        clamped(
            self.ui_regions.memory.x,
            watch_top(self.watch_addr, self.ui_regions.memory.y as int, i) as u16,
            self.ui_regions.memory.width,
            watch_height(self.watch_addr[i].size) as u16,
        ).shared(screen)
    }

    /// The row of the screen at which line `i` of the log is drawn into the
    /// main panel, if it is drawn: the newest line stands in the last row
    /// while the log is not scrolled back, and every line by which it is
    /// scrolled back moves the lines one row down.
    pub open spec fn log_row(self, i: int) -> Option<u16> {
        let rows = self.ui_regions.main.height as int;
        let y = self.ui_regions.main.y + i + self.log.position + rows - self.log.lines.len();
        if 0 <= y <= rows {
            Some(y as u16)
        } else {
            None
        }
    }

    /// The scrollbar of the log view.
    pub open spec fn log_bar(self) -> CustomScrollbar {
        let end = self.log.lines.len() - self.log.position;
        CustomScrollbar {
            start: held_i16(end - self.ui_regions.main.height),
            end: held_i16(end),
            length: held_i16(self.log.lines.len() as int),
            color: Color::White,
            track_color: Color::DarkGray,
            vertical: true,
        }
    }

    /// The cell of the screen at which the cursor of the command line stands,
    /// held to what 16 bits can count.
    pub open spec fn cursor_cell(self) -> (u16, u16) {
        (
            least(self.ui_regions.input.x + self.cursor + 2, 0xffff) as u16,
            least(self.ui_regions.input.y + 1, 0xffff) as u16,
        )
    }
}

/// Whether a text that begins in column `x` and row `y` is drawn on a screen
/// of the given size: four columns from `x` on and the row `y` lie on it.
pub open spec fn on_screen(width: u16, height: u16, x: u16, y: u16) -> bool {
    x + 4 <= width && y + 1 <= height
}

/// Whether a text that begins in column `x` and row `y` is drawn.
pub fn fits_screen(width: u16, height: u16, x: u16, y: u16) -> (b: bool)
    ensures
        b == on_screen(width, height, x, y),
{
    x as u32 + 4 <= width as u32 && y as u32 + 1 <= height as u32
}

/// The colours of the words `Run`, `Halt` and `Debug` of the key map.
pub open spec fn keymap_colors(running: bool, debug_mode: bool) -> (Color, Color, Color) {
    (
        if running && debug_mode {
            Color::Yellow
        } else if running {
            Color::Green
        } else {
            Color::White
        },
        if running {
            Color::White
        } else {
            Color::Red
        },
        if debug_mode {
            Color::Green
        } else {
            Color::White
        },
    )
}

impl App {
    /// How the run state is called in the status panel, and in which colour.
    pub fn status_label(&self) -> (label: (&'static str, Color))
        ensures
            (label.0@, label.1) == run_label(self@.sim_state.running, self@.sim_state.debug_mode),
    {
        if self.sim_state.running && self.sim_state.debug_mode {
            ("DEBUG RUN", Color::LightYellow)
        } else if self.sim_state.running {
            ("RUN", Color::LightGreen)
        } else if self.sim_state.debug_mode {
            ("DEBUG HALT", Color::LightRed)
        } else {
            ("HALT", Color::LightRed)
        }
    }

    /// The title of the status panel that names the active user in hexadecimal.
    pub fn user_title(&self) -> (title: String)
        ensures
            title@ == "User: "@ + number_text(self@.sim_state.active_user as nat, 16, 1),
    {
        let mut text = chars_of("User: ");
        append(&mut text, &hex_text(self.sim_state.active_user, 1));
        string_of(&text)
    }

    /// The address of the instruction at which the program stands, and the
    /// instruction word.
    pub fn current_instruction(&self) -> (at: (u16, u16))
        ensures
            at == self@.instruction(),
    {
        let addr = self.sim_state.pc();
        (addr, self.sim_state.word(addr as usize))
    }

    /// The line of the status panel that names the instruction at which the
    /// program stands, which the decoder calls `opcode`.
    pub fn instruction_line(&self, opcode: &str) -> (line: String)
        ensures
            line@ == instruction_text(self@.instruction().0, self@.instruction().1, opcode@),
    {
        let (addr, word) = self.current_instruction();
        let mut text: Vec<char> = Vec::new();
        text.push('@');
        append(&mut text, &hex_text(addr as u64, 4));
        text.push('[');
        append(&mut text, &hex_text(word as u64, 4));
        text.push(']');
        text.push(':');
        text.push(' ');
        append_str(&mut text, opcode);
        assert(text@ =~= instruction_text(addr, word, opcode@));
        string_of(&text)
    }

    /// The text that tells how long the program sleeps, while it does.
    pub fn sleep_text(&self) -> (text: Option<String>)
        ensures
            match text {
                Some(t) => self@.sim_state.sleep > 0 && t@ == "Sleep: "@ + number_text(
                    self@.sim_state.sleep as nat,
                    10,
                    1,
                ),
                None => self@.sim_state.sleep == 0,
            },
    {
        if self.sim_state.sleep > 0 {
            let mut text = chars_of("Sleep: ");
            append(&mut text, &decimal_text(self.sim_state.sleep as u64));
            Some(string_of(&text))
        } else {
            None
        }
    }

    /// The registers as the register panel shows them: two to a row, each
    /// with its name and its four words.
    pub fn register_cells(&self) -> (cells: Vec<RegisterCell>)
        ensures
            cells.len() == REGISTERS,
            forall|i: int|
                0 <= i < REGISTERS ==> {
                    let cell = #[trigger] cells[i];
                    &&& cell.column == 2 + (i % 2) * REGISTER_STRIDE
                    &&& cell.row == 1 + i / 2
                    &&& cell.name@ == register_name(i)
                    &&& cell.color == if i == 15 {
                        Color::LightGreen
                    } else {
                        Color::LightBlue
                    }
                    &&& cell.values == self@.register_words(i)
                },
    {
        let mut cells: Vec<RegisterCell> = Vec::new();
        let mut i: usize = 0;
        while i < REGISTERS
            invariant
                i <= REGISTERS,
                cells.len() == i,
                forall|k: int|
                    0 <= k < i ==> {
                        let cell = #[trigger] cells[k];
                        &&& cell.column == 2 + (k % 2) * REGISTER_STRIDE
                        &&& cell.row == 1 + k / 2
                        &&& cell.name@ == register_name(k)
                        &&& cell.color == if k == 15 {
                            Color::LightGreen
                        } else {
                            Color::LightBlue
                        }
                        &&& cell.values == self@.register_words(k)
                    },
            decreases REGISTERS - i,
        {
            let mut name = if i < 8 {
                let mut name = chars_of("  c");
                append(&mut name, &decimal_text(i as u64));
                append_str(&mut name, ":");
                name
            } else if i < 15 {
                let mut name = chars_of("  r");
                append(&mut name, &decimal_text((i - 8) as u64));
                append_str(&mut name, ":");
                name
            } else {
                chars_of("  ri:")
            };
            let values: [u16; 4] = [
                self.sim_state.word(i * 4),
                self.sim_state.word(i * 4 + 1),
                self.sim_state.word(i * 4 + 2),
                self.sim_state.word(i * 4 + 3),
            ];
            assert(values =~= self@.register_words(i as int));
            cells.push(
                RegisterCell {
                    column: 2 + (i % 2) as u16 * REGISTER_STRIDE,
                    row: 1 + (i / 2) as u16,
                    name: string_of(&name),
                    color: if i == 15 {
                        Color::LightGreen
                    } else {
                        Color::LightBlue
                    },
                    values,
                },
            );
            i += 1;
        }
        cells
    }

    /// The rectangles of the watch panels on a screen, one below the other.
    pub fn watch_rects(&self, screen: Rect) -> (rects: Vec<Rect>)
        ensures
            rects.len() == self.watch_addr.len(),
            forall|i: int| 0 <= i < rects.len() ==> #[trigger] rects[i] == self@.watch_rect(screen, i),
    {
        let mut rects: Vec<Rect> = Vec::new();
        let mut y: u16 = self.ui_regions.memory.y;
        let mut i: usize = 0;
        while i < self.watch_addr.len()
            invariant
                i <= self.watch_addr.len(),
                rects.len() == i,
                y == watch_top(self@.watch_addr, self.ui_regions.memory.y as int, i as int),
                forall|k: int| 0 <= k < i ==> #[trigger] rects[k] == self@.watch_rect(screen, k),
            decreases self.watch_addr.len() - i,
        {
            let size = self.watch_addr[i].size;
            assert(self@.watch_addr[i as int].size == size);
            let half = size / 2;
            let height: u16 = if half > 1 {
                half + 2
            } else {
                3
            };
            let rect = Rect::new(
                self.ui_regions.memory.x,
                y,
                self.ui_regions.memory.width,
                height,
            ).intersection(screen);
            rects.push(rect);
            y = if y as u32 + height as u32 > 0xffff {
                0xffff
            } else {
                y + height
            };
            i += 1;
        }
        rects
    }

    /// The rows of the watch panel of an entry that is drawn into `rect`:
    /// four words to a row from the entry's address on, two rows side by side
    /// in each row of the panel, as far as the panel has room within its frame.
    pub fn watch_box_rows(&self, entry: &WatchEntry, rect: Rect) -> (rows: Vec<WatchRow>)
        ensures
            rows.len() == least(watch_rows(entry@), watch_room(rect.height)),
            forall|i: int|
                0 <= i < rows.len() ==> {
                    let row = #[trigger] rows[i];
                    &&& row.column == 2 + (i % 2) * REGISTER_STRIDE
                    &&& row.row == 1 + i / 2
                    &&& row.row + 1 < rect.height
                    &&& row.addr == entry.addr + 4 * i
                    &&& row.values[0] == word_at(self@.sim_state.memory, row.addr as int)
                    &&& row.values[1] == word_at(self@.sim_state.memory, row.addr + 1)
                    &&& row.values[2] == word_at(self@.sim_state.memory, row.addr + 2)
                    &&& row.values[3] == word_at(self@.sim_state.memory, row.addr + 3)
                },
    {
        let start: usize = entry.addr as usize;
        let end: usize = ((start + entry.size as usize * 4 + 3) / 4) * 4;
        let count: usize = if end <= start {
            1
        } else {
            (end - start + 3) / 4
        };
        let mut rows: Vec<WatchRow> = Vec::new();
        let mut i: usize = 0;
        while i < count && 1 + i / 2 + 1 < rect.height as usize
            invariant
                i <= count,
                i <= watch_room(rect.height),
                count == watch_rows(entry@),
                count <= 0x10000,
                start == entry.addr,
                rows.len() == i,
                forall|k: int|
                    0 <= k < i ==> {
                        let row = #[trigger] rows[k];
                        &&& row.column == 2 + (k % 2) * REGISTER_STRIDE
                        &&& row.row == 1 + k / 2
                        &&& row.row + 1 < rect.height
                        &&& row.addr == entry.addr + 4 * k
                        &&& row.values[0] == word_at(self@.sim_state.memory, row.addr as int)
                        &&& row.values[1] == word_at(self@.sim_state.memory, row.addr + 1)
                        &&& row.values[2] == word_at(self@.sim_state.memory, row.addr + 2)
                        &&& row.values[3] == word_at(self@.sim_state.memory, row.addr + 3)
                    },
            decreases count - i,
        {
            let addr: usize = start + 4 * i;
            rows.push(
                WatchRow {
                    column: 2 + (i % 2) as u16 * REGISTER_STRIDE,
                    row: 1 + (i / 2) as u16,
                    addr,
                    values: [
                        self.sim_state.word(addr),
                        self.sim_state.word(addr + 1),
                        self.sim_state.word(addr + 2),
                        self.sim_state.word(addr + 3),
                    ],
                },
            );
            i += 1;
        }
        rows
    }

    /// The row of the screen at which line `i` of the log is drawn, if it is.
    pub fn log_line_row(&self, i: usize) -> (row: Option<u16>)
        ensures
            row == self@.log_row(i as int),
    {
        let rows: i128 = self.ui_regions.main.height as i128;
        let y: i128 = self.ui_regions.main.y as i128 + i as i128 + self.log.position as i128 + rows
            - self.log.lines.len() as i128;
        if 0 <= y && y <= rows {
            Some(y as u16)
        } else {
            None
        }
    }

    /// The scrollbar of the log view.
    pub fn log_scrollbar(&self) -> (bar: CustomScrollbar)
        ensures
            bar == self@.log_bar(),
    {
        let end: i128 = self.log.lines.len() as i128 - self.log.position as i128;
        CustomScrollbar {
            start: hold_i16(end - self.ui_regions.main.height as i128),
            end: hold_i16(end),
            length: hold_i16(self.log.lines.len() as i128),
            color: Color::White,
            track_color: Color::DarkGray,
            vertical: true,
        }
    }

    /// The cell of the screen at which the cursor of the command line stands.
    pub fn cursor_position(&self) -> (cell: (u16, u16))
        ensures
            cell == self@.cursor_cell(),
    {
        let x: u128 = self.ui_regions.input.x as u128 + self.input.cursor() as u128 + 2;
        let y: u32 = self.ui_regions.input.y as u32 + 1;
        (
            if x > 0xffff {
                0xffff
            } else {
                x as u16
            },
            if y > 0xffff {
                0xffff
            } else {
                y as u16
            },
        )
    }

    /// The colours of the words `Run`, `Halt` and `Debug` of the key map.
    pub fn keymap(&self) -> (colors: (Color, Color, Color))
        ensures
            colors == keymap_colors(self@.sim_state.running, self@.sim_state.debug_mode),
    {
        let running = self.sim_state.running;
        let debug_mode = self.sim_state.debug_mode;
        (
            if running && debug_mode {
                Color::Yellow
            } else if running {
                Color::Green
            } else {
                Color::White
            },
            if running {
                Color::White
            } else {
                Color::Red
            },
            if debug_mode {
                Color::Green
            } else {
                Color::White
            },
        )
    }
}

} // verus!
