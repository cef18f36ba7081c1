//! The memory view: the mirrored memory word by word, in groups of four, with
//! what each word means where that is known: an instruction in the code
//! region, a named register in the window of the modules.

use vstd::prelude::*;
use crate::app::{App, AppView, CODE_START};
use crate::code_view::{held_i16, hold_i16};
use crate::color::{Color, ColoredString};
use crate::decoder::{
    decoded_views, literal_rows_left, literal_run, operand_text, operands_of, run_of, words_shown,
    Decoded, DecodedView,
};
use crate::layout::{least, most};
use crate::mirror::word_at;
use crate::modules::{in_window, slot_of, Module};
use crate::scrollback::{line_view, LineView};
use crate::scrollbar::CustomScrollbar;
use crate::text::{chars_of, string_of};

verus! {

/// The address of the register that tells which module stands in the first slot.
pub const MODULE_IDS: usize = 0x318;

/// The address behind the code region.
pub const CODE_REGION_END: usize = 0x100;

/// The address behind the registers.
pub const REGISTERS_END: usize = 0x40;

/// The place of a word in its group of four.
#[derive(Debug, Clone, Copy, PartialEq, Eq, Structural)]
pub enum GroupPart {
    /// The first word of the group.
    Top,
    /// The second or third.
    Middle,
    /// The last.
    Bottom,
}

/// A row of the memory view.
#[derive(Debug, Clone, PartialEq, Eq)]
pub struct MemoryRow {
    /// The address of the word.
    pub addr: u16,
    /// The word.
    pub value: u16,
    /// The place of the word in its group of four.
    pub part: GroupPart,
    /// What the word means, in coloured pieces.
    pub desc: Vec<ColoredString>,
    /// The index of the register that begins at the word.
    pub register: Option<u8>,
    /// The name of the module register at the word.
    pub name: Option<ColoredString>,
}

/// A row with its texts as sequences.
pub struct MemoryRowView {
    pub addr: u16,
    pub value: u16,
    pub part: GroupPart,
    pub desc: LineView,
    pub register: Option<u8>,
    pub name: Option<(Seq<char>, Color)>,
}

impl View for MemoryRow {
    type V = MemoryRowView;

    open spec fn view(&self) -> MemoryRowView {
        MemoryRowView {
            addr: self.addr,
            value: self.value,
            part: self.part,
            desc: line_view(self.desc@),
            register: self.register,
            name: match self.name {
                Some(name) => Some(name@),
                None => None,
            },
        }
    }
}

/// The place of the word at `addr` in its group of four.
pub open spec fn part_of(addr: int) -> GroupPart {
    if addr % 4 == 0 {
        GroupPart::Top
    } else if addr % 4 == 3 {
        GroupPart::Bottom
    } else {
        GroupPart::Middle
    }
}

/// The dim colour of what is likely no instruction.
pub open spec fn dim() -> Color {
    Color::Rgb(64, 64, 64)
}

impl AppView {
    /// The number of rows of the memory view for `decoded` decoded words: one
    /// for each row of the main panel that shows a word of the mirror with a
    /// 16-bit address.
    pub open spec fn memory_row_count(self, decoded: int) -> int {
        most(
            0,
            least(
                least(self.ui_regions.main.height as int, decoded),
                least(
                    self.sim_state.memory.len() - self.memory_scroll,
                    0x10000 - self.memory_scroll,
                ),
            ),
        )
    }

    /// The module that stands in the slot to which `addr` belongs, as the
    /// mirror tells it.
    pub open spec fn module_at(self, addr: int) -> Option<Module> {
        if in_window(addr) {
            Module::of_id(
                word_at(self.sim_state.memory, MODULE_IDS + slot_of(addr)),
                slot_of(addr) as u16,
            )
        } else {
            None
        }
    }

    /// What the word in row `k` of the memory view means. In the code region
    /// it is an instruction, with its literal operands where it has some, and
    /// dim where it is likely a literal itself. Elsewhere it is the register
    /// of the module in its slot, or dim where there is none.
    pub open spec fn memory_desc(self, decoded: Seq<DecodedView>, k: int) -> LineView {
        let addr = self.memory_scroll + k;
        let opcode = decoded[k].text;
        if CODE_START <= addr < CODE_REGION_END {
            if literal_run(decoded[k]) is Some {
                seq![
                    (opcode, Color::Gray),
                    (" <- "@, Color::Green),
                    (
                        operand_text(self.sim_state.memory, addr, words_shown(decoded[k])),
                        Color::Blue,
                    ),
                ]
            } else if literal_rows_left(decoded, k) > 0 {
                seq![(opcode, dim())]
            } else {
                seq![(opcode, Color::Gray)]
            }
        } else {
            match self.module_at(addr) {
                Some(module) => seq![module.register(addr).1],
                None => seq![(opcode, dim())],
            }
        }
    }

    /// Row `k` of the memory view, for the decoded words of the rows.
    pub open spec fn memory_row(self, decoded: Seq<DecodedView>, k: int) -> MemoryRowView {
        let addr = self.memory_scroll + k;
        MemoryRowView {
            addr: addr as u16,
            value: self.sim_state.memory[addr],
            part: part_of(addr),
            desc: self.memory_desc(decoded, k),
            register: if addr % 4 == 0 && addr < REGISTERS_END {
                Some((addr / 4) as u8)
            } else {
                None
            },
            name: match self.module_at(addr) {
                Some(module) => Some(module.register(addr).0),
                None => None,
            },
        }
    }

    /// The scrollbar of the memory view.
    pub open spec fn memory_bar(self) -> CustomScrollbar {
        CustomScrollbar {
            start: held_i16(self.memory_scroll as int),
            end: held_i16(self.memory_scroll + self.ui_regions.memory.height - 1),
            length: held_i16(self.sim_state.memory.len() - 1 - self.ui_regions.memory.height),
            color: Color::White,
            track_color: Color::DarkGray,
            vertical: true,
        }
    }
}

/// A piece of text in a colour.
fn piece(text: &str, color: Color) -> (s: ColoredString)
    ensures
        s@ == (text@, color),
{
    ColoredString { text: string_of(&chars_of(text)), color }
}

impl App {
    /// The window of the memory view: its first address and the number of
    /// words for which the view wants a decoded word.
    pub fn memory_window(&self) -> (window: (usize, usize))
        ensures
            window.0 == self.memory_scroll,
            window.1 == self@.memory_row_count(self.ui_regions.main.height as int),
            window.1 > 0 ==> window.0 + window.1 <= self@.sim_state.memory.len(),
    {
        let n = self.sim_state.memory.len();
        let start = self.memory_scroll;
        if start >= n || start >= 0x10000 {
            return (start, 0);
        }
        let mut count: usize = self.ui_regions.main.height as usize;
        if n - start < count {
            count = n - start;
        }
        if 0x10000 - start < count {
            count = 0x10000 - start;
        }
        (start, count)
    }

    /// The module that stands in the slot to which `addr` belongs.
    pub fn module_of(&self, addr: u16) -> (module: Option<Module>)
        ensures
            module == self@.module_at(addr as int),
    {
        match Module::addr_to_slot(addr) {
            Some(slot) => Module::type_from_id(self.sim_state.word(MODULE_IDS + slot), slot as u16),
            None => None,
        }
    }

    /// The rows of the memory view, for the decoded words of its window.
    pub fn memory_rows(&self, decoded: &Vec<Decoded>) -> (rows: Vec<MemoryRow>)
        ensures
            rows.len() == self@.memory_row_count(decoded.len() as int),
            forall|k: int|
                0 <= k < rows.len() ==> (#[trigger] rows[k])@ == self@.memory_row(
                    decoded_views(decoded@),
                    k,
                ),
    {
        let (start, window) = self.memory_window();
        let count: usize = if decoded.len() < window {
            decoded.len()
        } else {
            window
        };
        let ghost words = decoded_views(decoded@);
        let mut rows: Vec<MemoryRow> = Vec::new();
        let mut left: u8 = 0;
        let mut k: usize = 0;
        while k < count
            invariant
                k <= count,
                count <= decoded.len(),
                count > 0 ==> start + count <= self.sim_state.memory.len() && start + count
                    <= 0x10000,
                start == self.memory_scroll,
                words == decoded_views(decoded@),
                left <= 5,
                left == if k > 0 {
                    literal_rows_left(words, k - 1)
                } else {
                    0
                },
                rows.len() == k,
                forall|j: int| 0 <= j < k ==> (#[trigger] rows[j])@ == self@.memory_row(words, j),
            decreases count - k,
        {
            let word = &decoded[k];
            assert(words[k as int] == word@);
            let addr: usize = start + k;
            let run = run_of(word);
            let now: u8 = match run {
                Some(n) => n,
                None => if left > 0 {
                    left - 1
                } else {
                    0
                },
            };
            assert(now == literal_rows_left(words, k as int));
            let module = self.module_of(addr as u16);
            let mut desc: Vec<ColoredString> = Vec::new();
            let mut name: Option<ColoredString> = None;
            let info = match module {
                Some(m) => m.module_register_info(addr),
                None => None,
            };
            let mut register_text: Option<ColoredString> = None;
            match info {
                Some((n, d)) => {
                    name = Some(n);
                    register_text = Some(d);
                },
                None => {},
            }
            if CODE_START <= addr && addr < CODE_REGION_END {
                if run.is_some() {
                    desc.push(ColoredString { text: word.text.clone(), color: Color::Gray });
                    desc.push(piece(" <- ", Color::Green));
                    desc.push(
                        ColoredString {
                            text: string_of(&operands_of(&self.sim_state.memory, addr, word)),
                            color: Color::Blue,
                        },
                    );
                } else if now > 0 {
                    desc.push(ColoredString { text: word.text.clone(), color: Color::Rgb(64, 64, 64) });
                } else {
                    desc.push(ColoredString { text: word.text.clone(), color: Color::Gray });
                }
            } else {
                match register_text {
                    Some(d) => {
                        desc.push(d);
                    },
                    None => {
                        desc.push(
                            ColoredString { text: word.text.clone(), color: Color::Rgb(64, 64, 64) },
                        );
                    },
                }
            }
            assert(line_view(desc@) =~= self@.memory_desc(words, k as int));
            let part = if addr % 4 == 0 {
                GroupPart::Top
            } else if addr % 4 == 3 {
                GroupPart::Bottom
            } else {
                GroupPart::Middle
            };
            let row = MemoryRow {
                addr: addr as u16,
                value: self.sim_state.memory[addr],
                part,
                desc,
                register: if addr % 4 == 0 && addr < REGISTERS_END {
                    Some((addr / 4) as u8)
                } else {
                    None
                },
                name,
            };
            assert(row@ == self@.memory_row(words, k as int));
            rows.push(row);
            left = now;
            k += 1;
        }
        rows
    }

    /// The scrollbar of the memory view.
    pub fn memory_scrollbar(&self) -> (bar: CustomScrollbar)
        ensures
            bar == self@.memory_bar(),
    {
        let height: i128 = self.ui_regions.memory.height as i128;
        let start: i128 = self.memory_scroll as i128;
        CustomScrollbar {
            start: hold_i16(start),
            end: hold_i16(start + height - 1),
            length: hold_i16(self.sim_state.memory.len() as i128 - 1 - height),
            color: Color::White,
            track_color: Color::DarkGray,
            vertical: true,
        }
    }
}

} // verus!
