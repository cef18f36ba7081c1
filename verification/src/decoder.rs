//! What the console needs to know of an instruction word from the decoder,
//! and what follows from it for the words behind the instruction.
//!
//! Loads, stores, gathers and scatters that go through a register and move it
//! on carry an option that says how many words they move. Where the register
//! is the instruction pointer, the words behind the instruction are its
//! literal operands and are shown as such.

use vstd::prelude::*;

use crate::number::{hex_text, number_text};
use crate::text::append;

verus! {

/// The operands of an instruction that goes through a register and moves it on.
#[derive(Debug, Clone, Copy, PartialEq, Eq, Structural)]
pub struct Operands {
    /// Whether the register is the instruction pointer.
    pub from_ri: bool,
    /// The instruction's option; its two low bits are one less than the number
    /// of words that are moved.
    pub option: u8,
}

/// What the decoder says of an instruction word.
#[derive(Debug, Clone, PartialEq, Eq)]
pub struct Decoded {
    /// How the instruction is written.
    pub text: String,
    /// Its operands, where it goes through a register and moves it on.
    pub operands: Option<Operands>,
}

/// A decoded word with its text as a sequence.
pub struct DecodedView {
    pub text: Seq<char>,
    pub operands: Option<Operands>,
}

impl View for Decoded {
    type V = DecodedView;

    open spec fn view(&self) -> DecodedView {
        DecodedView { text: self.text@, operands: self.operands }
    }
}

/// What each decoded word of a list says.
pub open spec fn decoded_views(list: Seq<Decoded>) -> Seq<DecodedView> {
    list.map_values(|d: Decoded| d@)
}

/// The number of rows, the instruction's own included, that an instruction
/// with literal operands marks as likely literals; none for any other.
pub open spec fn literal_run(word: DecodedView) -> Option<int> {
    match word.operands {
        Some(operands) => if operands.from_ri {
            Some((operands.option % 4) as int + 2)
        } else {
            None
        },
        None => None,
    }
}

/// The number of rows from row `i` on that are still marked as likely
/// literals, when the rows are gone through from the first.
pub open spec fn literal_rows_left(rows: Seq<DecodedView>, i: int) -> int
    decreases i,
{
    if i < 0 || i >= rows.len() {
        0
    } else {
        match literal_run(rows[i]) {
            Some(n) => n,
            None => if i > 0 && literal_rows_left(rows, i - 1) > 0 {
                literal_rows_left(rows, i - 1) - 1
            } else {
                0
            },
        }
    }
}

/// The number of words behind an instruction that are shown as its operands.
pub open spec fn words_shown(word: DecodedView) -> int {
    match word.operands {
        Some(operands) => if operands.option <= 2 {
            operands.option as int + 1
        } else {
            4
        },
        None => 1,
    }
}

/// The `count` words behind the address `addr`, each in four hexadecimal
/// digits, with a comma and a blank between them. Behind the last word of the
/// memory its first follows.
pub open spec fn operand_text(memory: Seq<u16>, addr: int, count: int) -> Seq<char>
    decreases count,
{
    if count <= 0 || memory.len() == 0 {
        Seq::empty()
    } else if count == 1 {
        number_text(memory[(addr + 1) % (memory.len() as int)] as nat, 16, 4)
    } else {
        operand_text(memory, addr, count - 1) + seq![',', ' '] + number_text(
            memory[(addr + count) % (memory.len() as int)] as nat,
            16,
            4,
        )
    }
}

/// The number of rows that an instruction with literal operands marks.
pub fn run_of(word: &Decoded) -> (run: Option<u8>)
    ensures
        match run {
            Some(n) => literal_run(word@) == Some(n as int),
            None => literal_run(word@) is None,
        },
{
    match word.operands {
        Some(operands) => {
            if operands.from_ri {
                Some(operands.option % 4 + 2)
            } else {
                None
            }
        },
        None => None,
    }
}

/// The words behind `addr` that are shown as the operands of `word`.
pub fn operands_of(memory: &Vec<u16>, addr: usize, word: &Decoded) -> (text: Vec<char>)
    requires
        addr < memory.len(),
    ensures
        text@ == operand_text(memory@, addr as int, words_shown(word@)),
{
    let count: usize = match word.operands {
        Some(operands) => {
            if operands.option <= 2 {
                operands.option as usize + 1
            } else {
                4
            }
        },
        None => 1,
    };
    let n = memory.len();
    let mut text: Vec<char> = Vec::new();
    let mut k: usize = 0;
    assert(text@ =~= operand_text(memory@, addr as int, 0));
    while k < count
        invariant
            k <= count <= 4,
            n == memory.len(),
            addr < n,
            text@ == operand_text(memory@, addr as int, k as int),
        decreases count - k,
    {
        if k > 0 {
            text.push(',');
            text.push(' ');
        }
        let wrapped: usize = ((addr as u128 + k as u128 + 1) % (n as u128)) as usize;
        append(&mut text, &hex_text(memory[wrapped] as u64, 4));
        assert(text@ =~= operand_text(memory@, addr as int, k + 1));
        k += 1;
    }
    text
}

} // verus!
