//! The modules of a ship and the registers through which a program reaches
//! them: which module stands in which slot of the input and output window,
//! and what each of its registers is called.

use vstd::prelude::*;
use crate::color::{Color, ColoredString};
use crate::text::{chars_of, string_of};

verus! {

/// The first address of the window through which modules are reached.
pub const WINDOW_START: u16 = 0x300;

/// The last address of that window.
pub const WINDOW_END: u16 = 0x3ff;

/// The number of addresses of one slot of the window.
pub const SLOT_SIZE: u16 = 0x20;

/// A module of a ship, with the slot in which it stands.
#[derive(Debug, Clone, Copy, PartialEq, Eq, Structural)]
pub enum Module {
    Control(u16),
    Flight(u16),
    Nav(u16),
    Radar(u16),
    ConstStore(u16),
}

/// The name and the description of a register, each with its colour.
pub type RegisterView = ((Seq<char>, Color), (Seq<char>, Color));

/// The name and description of a register that is not named: no name, and `0`
/// for a description, both dim.
pub open spec fn unnamed() -> RegisterView {
    ((""@, Color::Rgb(64, 64, 64)), ("0"@, Color::Rgb(64, 64, 64)))
}

/// Whether an address lies in the window through which modules are reached.
pub open spec fn in_window(addr: int) -> bool {
    WINDOW_START <= addr <= WINDOW_END
}

/// The slot of the window to which an address belongs.
pub open spec fn slot_of(addr: int) -> int {
    (addr - WINDOW_START) / (SLOT_SIZE as int)
}

/// The name and description of the register at `offset` of a control module.
pub open spec fn control_register(offset: int) -> RegisterView {
    if offset == 0x00 {
        (("CSTA"@, Color::Rgb(128, 128, 128)), ("Core Status"@, Color::Gray))
    } else if offset == 0x01 {
        (("CID"@, Color::Rgb(128, 128, 128)), ("Core ID"@, Color::Gray))
    } else if offset == 0x02 {
        (("CPRT"@, Color::Rgb(128, 128, 128)), ("Core Exception Register"@, Color::Gray))
    } else if offset == 0x04 {
        (("CCRL"@, Color::Rgb(128, 128, 128)), ("Core Instruction Register"@, Color::Gray))
    } else if offset == 0x05 {
        (("CUID"@, Color::Rgb(64, 64, 64)), ("╭──────────╮"@, Color::Rgb(64, 64, 64)))
    } else if offset == 0x06 {
        (("CUID"@, Color::Rgb(128, 128, 128)), ("Core User ID"@, Color::Gray))
    } else if offset == 0x07 {
        (("CUID"@, Color::Rgb(64, 64, 64)), ("╰──────────╯"@, Color::Rgb(64, 64, 64)))
    } else if offset == 0x0c {
        (("TID"@, Color::Rgb(128, 128, 128)), ("Current Thread ID"@, Color::Gray))
    } else if offset == 0x0d {
        (("TPRT"@, Color::Rgb(128, 128, 128)), ("Thread Protection"@, Color::Gray))
    } else if offset == 0x10 {
        (("TBK0"@, Color::Rgb(128, 128, 128)), ("Bank Select 0"@, Color::Gray))
    } else if offset == 0x14 {
        (("TBK1"@, Color::Rgb(128, 128, 128)), ("Bank Select 1"@, Color::Gray))
    } else if offset == 0x18 {
        (("TMS1"@, Color::Rgb(128, 128, 128)), ("Module Select 1"@, Color::Gray))
    } else if offset == 0x19 {
        (("CMS1"@, Color::Rgb(128, 128, 128)), ("Module Select 1"@, Color::Gray))
    } else if offset == 0x1a {
        (("CMS2"@, Color::Rgb(128, 128, 128)), ("Module Select 2"@, Color::Gray))
    } else if offset == 0x1b {
        (("CMS3"@, Color::Rgb(128, 128, 128)), ("Module Select 3"@, Color::Gray))
    } else if offset == 0x1c {
        (("CMS4"@, Color::Rgb(128, 128, 128)), ("Module Select 4"@, Color::Gray))
    } else if offset == 0x1d {
        (("CMS5"@, Color::Rgb(128, 128, 128)), ("Module Select 5"@, Color::Gray))
    } else if offset == 0x1e {
        (("CMS6"@, Color::Rgb(128, 128, 128)), ("Module Select 6"@, Color::Gray))
    } else if offset == 0x1f {
        (("CMS7"@, Color::Rgb(128, 128, 128)), ("Module Select 7"@, Color::Gray))
    } else {
        unnamed()
    }
}

/// The name and description of the register at `offset` of a flight module.
pub open spec fn flight_register(offset: int) -> RegisterView {
    if offset == 0x00 {
        (("MSTS"@, Color::Rgb(128, 128, 128)), ("Module Status"@, Color::Gray))
    } else if offset == 0x01 {
        (("MMID"@, Color::Rgb(128, 128, 128)), ("Module ID"@, Color::Gray))
    } else if offset == 0x04 {
        (("RRVx"@, Color::Rgb(128, 128, 128)), ("Req. Vx"@, Color::Gray))
    } else if offset == 0x05 {
        (("RRVy"@, Color::Rgb(128, 128, 128)), ("Req. Vy"@, Color::Gray))
    } else if offset == 0x06 {
        (("M"@, Color::Rgb(128, 128, 128)), ("Scratch"@, Color::Blue))
    } else if offset == 0x07 {
        (("M"@, Color::Rgb(128, 128, 128)), ("Scratch"@, Color::Blue))
    } else if offset == 0x08 {
        (("CRVx"@, Color::Rgb(128, 128, 128)), ("Current Req. Vx"@, Color::Gray))
    } else if offset == 0x09 {
        (("CRVy"@, Color::Rgb(128, 128, 128)), ("Current Req. Vy"@, Color::Gray))
    } else if offset == 0x0c {
        (("RH"@, Color::Rgb(128, 128, 128)), ("Req. Heading"@, Color::Gray))
    } else if offset == 0x0d {
        (("M"@, Color::Rgb(128, 128, 128)), ("Scratch"@, Color::Blue))
    } else if offset == 0x0e {
        (("M"@, Color::Rgb(128, 128, 128)), ("Scratch"@, Color::Blue))
    } else if offset == 0x0f {
        (("M"@, Color::Rgb(128, 128, 128)), ("Scratch"@, Color::Blue))
    } else if offset == 0x10 {
        (("CAH"@, Color::Rgb(128, 128, 128)), ("Abs. Heading"@, Color::Gray))
    } else if offset == 0x14 {
        (("EEN"@, Color::Rgb(128, 128, 128)), ("Engine Flags"@, Color::Gray))
    } else if offset == 0x15 {
        (("M"@, Color::Rgb(128, 128, 128)), ("Scratch"@, Color::Blue))
    } else if offset == 0x16 {
        (("M"@, Color::Rgb(128, 128, 128)), ("Scratch"@, Color::Blue))
    } else if offset == 0x17 {
        (("M"@, Color::Rgb(128, 128, 128)), ("Scratch"@, Color::Blue))
    } else if offset == 0x1c {
        (("SHCC"@, Color::Rgb(128, 128, 128)), ("Ship Color"@, Color::Gray))
    } else if offset == 0x1d {
        (("SHCM"@, Color::Rgb(128, 128, 128)), ("Ship Alpha Mode"@, Color::Gray))
    } else {
        unnamed()
    }
}

/// The name and description of the register at `offset` of a nav module.
pub open spec fn nav_register(offset: int) -> RegisterView {
    if offset == 0x00 {
        (("MSTS"@, Color::Rgb(128, 128, 128)), ("Module Status"@, Color::Gray))
    } else if offset == 0x01 {
        (("MMID"@, Color::Rgb(128, 128, 128)), ("Module ID"@, Color::Gray))
    } else if offset == 0x04 {
        (("NASx"@, Color::Rgb(128, 128, 128)), ("Abs. Screen X"@, Color::Gray))
    } else if offset == 0x05 {
        (("NASy"@, Color::Rgb(128, 128, 128)), ("Abs. Screen Y"@, Color::Gray))
    } else if offset == 0x08 {
        (("NTSx"@, Color::Rgb(128, 128, 128)), ("Target Abs. X"@, Color::Gray))
    } else if offset == 0x09 {
        (("NTSy"@, Color::Rgb(128, 128, 128)), ("Target Abs. Y"@, Color::Gray))
    } else if offset == 0x0a {
        (("M"@, Color::Rgb(128, 128, 128)), ("Scratch"@, Color::Blue))
    } else if offset == 0x0b {
        (("M"@, Color::Rgb(128, 128, 128)), ("Scratch"@, Color::Blue))
    } else if offset == 0x0c {
        (("NTGT"@, Color::Rgb(128, 128, 128)), ("Target Selector"@, Color::Gray))
    } else if offset == 0x0d {
        (("NTGI"@, Color::Rgb(64, 64, 64)), ("╭───────╮"@, Color::Rgb(64, 64, 64)))
    } else if offset == 0x0e {
        (("NTGI"@, Color::Rgb(128, 128, 128)), ("Target ID"@, Color::Gray))
    } else if offset == 0x0f {
        (("NTGI"@, Color::Rgb(64, 64, 64)), ("╰───────╯"@, Color::Rgb(64, 64, 64)))
    } else if offset == 0x10 {
        (("NRDx"@, Color::Rgb(128, 128, 128)), ("Target Rel. X"@, Color::Gray))
    } else if offset == 0x11 {
        (("NRDy"@, Color::Rgb(128, 128, 128)), ("Target Rel. Y"@, Color::Gray))
    } else if offset == 0x14 {
        (("NRVx"@, Color::Rgb(128, 128, 128)), ("Target Rel. Vx"@, Color::Gray))
    } else if offset == 0x15 {
        (("NRVy"@, Color::Rgb(128, 128, 128)), ("Target Rel. Vy"@, Color::Gray))
    } else if offset == 0x18 {
        (("NAHT"@, Color::Rgb(128, 128, 128)), ("T.Abs. Heading Toward"@, Color::Gray))
    } else if offset == 0x1a {
        (("NAHF"@, Color::Rgb(128, 128, 128)), ("T.Abs. Heading Away"@, Color::Gray))
    } else if offset == 0x1c {
        (("NRHT"@, Color::Rgb(128, 128, 128)), ("T.Rel. Heading Toward"@, Color::Gray))
    } else if offset == 0x1e {
        (("NRHF"@, Color::Rgb(128, 128, 128)), ("T.Rel. Heading Away"@, Color::Gray))
    } else {
        unnamed()
    }
}

/// The name and description of the register at `offset` of a radar module.
pub open spec fn radar_register(offset: int) -> RegisterView {
    if offset == 0x00 {
        (("MSTS"@, Color::Rgb(128, 128, 128)), ("Module Status"@, Color::Gray))
    } else if offset == 0x01 {
        (("MMID"@, Color::Rgb(128, 128, 128)), ("Module ID"@, Color::Gray))
    } else if offset == 0x04 {
        (("RSSH"@, Color::Rgb(128, 128, 128)), ("Select Scan Heading"@, Color::Gray))
    } else if offset == 0x06 {
        (("RHLS"@, Color::Rgb(128, 128, 128)), ("Last Scan Heading"@, Color::Gray))
    } else if offset == 0x07 {
        (("RNSR"@, Color::Rgb(128, 128, 128)), ("Signature Count"@, Color::Gray))
    } else if offset == 0x08 {
        (("RSDT"@, Color::Rgb(128, 128, 128)), ("Signature Distance"@, Color::Rgb(220, 0, 0)))
    } else if offset == 0x09 {
        (("RSID"@, Color::Rgb(64, 64, 64)), ("╭──────────╮"@, Color::Rgb(64, 64, 64)))
    } else if offset == 0x0a {
        (("RSID"@, Color::Rgb(128, 128, 128)), ("Signature ID"@, Color::Rgb(220, 0, 0)))
    } else if offset == 0x0b {
        (("RSID"@, Color::Rgb(64, 64, 64)), ("╰──────────╯"@, Color::Rgb(64, 64, 64)))
    } else if offset == 0x0c {
        (("RSDT"@, Color::Rgb(128, 128, 128)), ("Signature Distance"@, Color::Rgb(220, 160, 0)))
    } else if offset == 0x0d {
        (("RSID"@, Color::Rgb(64, 64, 64)), ("╭──────────╮"@, Color::Rgb(64, 64, 64)))
    } else if offset == 0x0e {
        (("RSID"@, Color::Rgb(128, 128, 128)), ("Signature ID"@, Color::Rgb(220, 160, 0)))
    } else if offset == 0x0f {
        (("RSID"@, Color::Rgb(64, 64, 64)), ("╰──────────╯"@, Color::Rgb(64, 64, 64)))
    } else if offset == 0x10 {
        (("RSDT"@, Color::Rgb(128, 128, 128)), ("Signature Distance"@, Color::Rgb(220, 220, 0)))
    } else if offset == 0x11 {
        (("RSID"@, Color::Rgb(64, 64, 64)), ("╭──────────╮"@, Color::Rgb(64, 64, 64)))
    } else if offset == 0x12 {
        (("RSID"@, Color::Rgb(128, 128, 128)), ("Signature ID"@, Color::Rgb(220, 220, 0)))
    } else if offset == 0x13 {
        (("RSID"@, Color::Rgb(64, 64, 64)), ("╰──────────╯"@, Color::Rgb(64, 64, 64)))
    } else if offset == 0x14 {
        (("RSDT"@, Color::Rgb(128, 128, 128)), ("Signature Distance"@, Color::Rgb(40, 220, 40)))
    } else if offset == 0x15 {
        (("RSID"@, Color::Rgb(64, 64, 64)), ("╭──────────╮"@, Color::Rgb(64, 64, 64)))
    } else if offset == 0x16 {
        (("RSID"@, Color::Rgb(128, 128, 128)), ("Signature ID"@, Color::Rgb(40, 220, 40)))
    } else if offset == 0x17 {
        (("RSID"@, Color::Rgb(64, 64, 64)), ("╰──────────╯"@, Color::Rgb(64, 64, 64)))
    } else if offset == 0x18 {
        (("RSDT"@, Color::Rgb(128, 128, 128)), ("Signature Distance"@, Color::Rgb(60, 80, 220)))
    } else if offset == 0x19 {
        (("RSID"@, Color::Rgb(64, 64, 64)), ("╭──────────╮"@, Color::Rgb(64, 64, 64)))
    } else if offset == 0x1a {
        (("RSID"@, Color::Rgb(128, 128, 128)), ("Signature ID"@, Color::Rgb(60, 80, 220)))
    } else if offset == 0x1b {
        (("RSID"@, Color::Rgb(64, 64, 64)), ("╰──────────╯"@, Color::Rgb(64, 64, 64)))
    } else if offset == 0x1c {
        (("RSDT"@, Color::Rgb(128, 128, 128)), ("Signature Distance"@, Color::Rgb(140, 80, 200)))
    } else if offset == 0x1d {
        (("RSID"@, Color::Rgb(64, 64, 64)), ("╭──────────╮"@, Color::Rgb(64, 64, 64)))
    } else if offset == 0x1e {
        (("RSID"@, Color::Rgb(128, 128, 128)), ("Signature ID"@, Color::Rgb(140, 80, 200)))
    } else if offset == 0x1f {
        (("RSID"@, Color::Rgb(64, 64, 64)), ("╰──────────╯"@, Color::Rgb(64, 64, 64)))
    } else {
        unnamed()
    }
}

impl Module {
    /// The slot in which the module stands.
    pub open spec fn slot(self) -> u16 {
        match self {
            Module::Control(slot) => slot,
            Module::Flight(slot) => slot,
            Module::Nav(slot) => slot,
            Module::Radar(slot) => slot,
            Module::ConstStore(slot) => slot,
        }
    }

    /// The module that answers to an identifier, standing in `slot`.
    pub open spec fn of_id(id: u16, slot: u16) -> Option<Module> {
        if id == 0 {
            Some(Module::Control(slot))
        } else if 0x1000 <= id <= 0x1007 {
            Some(Module::ConstStore(slot))
        } else if id == 0x4000 {
            Some(Module::Flight(slot))
        } else if 0x4040 <= id <= 0x4047 {
            Some(Module::Radar(slot))
        } else if 0x4050 <= id <= 0x4057 {
            Some(Module::Nav(slot))
        } else {
            None
        }
    }

    /// The name and description of the register at an address of the window.
    /// Registers are counted from the start of the module's slot; a constant
    /// store names none of its registers.
    pub open spec fn register(self, addr: int) -> RegisterView {
        let offset = addr - (WINDOW_START + self.slot() * SLOT_SIZE);
        match self {
            Module::Control(_) => control_register(offset),
            Module::Flight(_) => flight_register(offset),
            Module::Nav(_) => nav_register(offset),
            Module::Radar(_) => radar_register(offset),
            Module::ConstStore(_) => unnamed(),
        }
    }

    /// The slot of the window to which an address belongs, if it lies in the
    /// window.
    pub fn addr_to_slot(addr: u16) -> (slot: Option<usize>)
        ensures
            slot == if in_window(addr as int) {
                Some(slot_of(addr as int) as usize)
            } else {
                None
            },
            slot is Some ==> slot->0 < 8,
    {
        if addr < WINDOW_START || addr > WINDOW_END {
            return None;
        }
        let slot = (addr - WINDOW_START) / SLOT_SIZE;
        Some(slot as usize)
    }

    /// The module that answers to an identifier, standing in `slot`.
    pub fn type_from_id(id: u16, slot: u16) -> (module: Option<Module>)
        ensures
            module == Module::of_id(id, slot),
    {
        if id == 0 {
            Some(Module::Control(slot))
        } else if 0x1000 <= id && id <= 0x1007 {
            Some(Module::ConstStore(slot))
        } else if id == 0x4000 {
            Some(Module::Flight(slot))
        } else if 0x4040 <= id && id <= 0x4047 {
            Some(Module::Radar(slot))
        } else if 0x4050 <= id && id <= 0x4057 {
            Some(Module::Nav(slot))
        } else {
            None
        }
    }

    /// The name and description of the register at an address, if the address
    /// lies in the window through which modules are reached.
    pub fn module_register_info(self, addr: usize) -> (info: Option<(ColoredString, ColoredString)>)
        ensures
            match info {
                Some(pair) => in_window(addr as int) && (pair.0@, pair.1@) == self.register(
                    addr as int,
                ),
                None => !in_window(addr as int),
            },
    {
        if addr < WINDOW_START as usize || addr > WINDOW_END as usize {
            return None;
        }
        let slot: u16 = match self {
            Module::Control(slot) => slot,
            Module::Flight(slot) => slot,
            Module::Nav(slot) => slot,
            Module::Radar(slot) => slot,
            Module::ConstStore(slot) => slot,
        };
        assert(slot * SLOT_SIZE <= 0xffff * 0x20) by (nonlinear_arith)
            requires
                slot <= 0xffff,
                SLOT_SIZE == 0x20,
        ;
        let base: u32 = WINDOW_START as u32 + slot as u32 * SLOT_SIZE as u32;
        let base: usize = base as usize;
        if addr < base {
            return Some(pair("", Color::Rgb(64, 64, 64), "0", Color::Rgb(64, 64, 64)));
        }
        let offset: usize = addr - base;
        Some(
            match self {
                Module::Control(_) => control(offset),
                Module::Flight(_) => flight(offset),
                Module::Nav(_) => nav(offset),
                Module::Radar(_) => radar(offset),
                Module::ConstStore(_) => pair("", Color::Rgb(64, 64, 64), "0", Color::Rgb(64, 64, 64)),
            },
        )
    }
}

/// A name and a description, each in its colour.
fn pair(name: &str, name_color: Color, text: &str, text_color: Color) -> (r: (
    ColoredString,
    ColoredString,
))
    ensures
        r.0@ == (name@, name_color),
        r.1@ == (text@, text_color),
{
    (
        ColoredString { text: string_of(&chars_of(name)), color: name_color },
        ColoredString { text: string_of(&chars_of(text)), color: text_color },
    )
}

/// The name and description of the register at `offset` of a control module.
fn control(offset: usize) -> (r: (ColoredString, ColoredString))
    ensures
        (r.0@, r.1@) == control_register(offset as int),
{
    if offset == 0x00 {
        pair("CSTA", Color::Rgb(128, 128, 128), "Core Status", Color::Gray)
    } else if offset == 0x01 {
        pair("CID", Color::Rgb(128, 128, 128), "Core ID", Color::Gray)
    } else if offset == 0x02 {
        pair("CPRT", Color::Rgb(128, 128, 128), "Core Exception Register", Color::Gray)
    } else if offset == 0x04 {
        pair("CCRL", Color::Rgb(128, 128, 128), "Core Instruction Register", Color::Gray)
    } else if offset == 0x05 {
        pair("CUID", Color::Rgb(64, 64, 64), "╭──────────╮", Color::Rgb(64, 64, 64))
    } else if offset == 0x06 {
        pair("CUID", Color::Rgb(128, 128, 128), "Core User ID", Color::Gray)
    } else if offset == 0x07 {
        pair("CUID", Color::Rgb(64, 64, 64), "╰──────────╯", Color::Rgb(64, 64, 64))
    } else if offset == 0x0c {
        pair("TID", Color::Rgb(128, 128, 128), "Current Thread ID", Color::Gray)
    } else if offset == 0x0d {
        pair("TPRT", Color::Rgb(128, 128, 128), "Thread Protection", Color::Gray)
    } else if offset == 0x10 {
        pair("TBK0", Color::Rgb(128, 128, 128), "Bank Select 0", Color::Gray)
    } else if offset == 0x14 {
        pair("TBK1", Color::Rgb(128, 128, 128), "Bank Select 1", Color::Gray)
    } else if offset == 0x18 {
        pair("TMS1", Color::Rgb(128, 128, 128), "Module Select 1", Color::Gray)
    } else if offset == 0x19 {
        pair("CMS1", Color::Rgb(128, 128, 128), "Module Select 1", Color::Gray)
    } else if offset == 0x1a {
        pair("CMS2", Color::Rgb(128, 128, 128), "Module Select 2", Color::Gray)
    } else if offset == 0x1b {
        pair("CMS3", Color::Rgb(128, 128, 128), "Module Select 3", Color::Gray)
    } else if offset == 0x1c {
        pair("CMS4", Color::Rgb(128, 128, 128), "Module Select 4", Color::Gray)
    } else if offset == 0x1d {
        pair("CMS5", Color::Rgb(128, 128, 128), "Module Select 5", Color::Gray)
    } else if offset == 0x1e {
        pair("CMS6", Color::Rgb(128, 128, 128), "Module Select 6", Color::Gray)
    } else if offset == 0x1f {
        pair("CMS7", Color::Rgb(128, 128, 128), "Module Select 7", Color::Gray)
    } else {
        pair("", Color::Rgb(64, 64, 64), "0", Color::Rgb(64, 64, 64))
    }
}

/// The name and description of the register at `offset` of a flight module.
fn flight(offset: usize) -> (r: (ColoredString, ColoredString))
    ensures
        (r.0@, r.1@) == flight_register(offset as int),
{
    if offset == 0x00 {
        pair("MSTS", Color::Rgb(128, 128, 128), "Module Status", Color::Gray)
    } else if offset == 0x01 {
        pair("MMID", Color::Rgb(128, 128, 128), "Module ID", Color::Gray)
    } else if offset == 0x04 {
        pair("RRVx", Color::Rgb(128, 128, 128), "Req. Vx", Color::Gray)
    } else if offset == 0x05 {
        pair("RRVy", Color::Rgb(128, 128, 128), "Req. Vy", Color::Gray)
    } else if offset == 0x06 {
        pair("M", Color::Rgb(128, 128, 128), "Scratch", Color::Blue)
    } else if offset == 0x07 {
        pair("M", Color::Rgb(128, 128, 128), "Scratch", Color::Blue)
    } else if offset == 0x08 {
        pair("CRVx", Color::Rgb(128, 128, 128), "Current Req. Vx", Color::Gray)
    } else if offset == 0x09 {
        pair("CRVy", Color::Rgb(128, 128, 128), "Current Req. Vy", Color::Gray)
    } else if offset == 0x0c {
        pair("RH", Color::Rgb(128, 128, 128), "Req. Heading", Color::Gray)
    } else if offset == 0x0d {
        pair("M", Color::Rgb(128, 128, 128), "Scratch", Color::Blue)
    } else if offset == 0x0e {
        pair("M", Color::Rgb(128, 128, 128), "Scratch", Color::Blue)
    } else if offset == 0x0f {
        pair("M", Color::Rgb(128, 128, 128), "Scratch", Color::Blue)
    } else if offset == 0x10 {
        pair("CAH", Color::Rgb(128, 128, 128), "Abs. Heading", Color::Gray)
    } else if offset == 0x14 {
        pair("EEN", Color::Rgb(128, 128, 128), "Engine Flags", Color::Gray)
    } else if offset == 0x15 {
        pair("M", Color::Rgb(128, 128, 128), "Scratch", Color::Blue)
    } else if offset == 0x16 {
        pair("M", Color::Rgb(128, 128, 128), "Scratch", Color::Blue)
    } else if offset == 0x17 {
        pair("M", Color::Rgb(128, 128, 128), "Scratch", Color::Blue)
    } else if offset == 0x1c {
        pair("SHCC", Color::Rgb(128, 128, 128), "Ship Color", Color::Gray)
    } else if offset == 0x1d {
        pair("SHCM", Color::Rgb(128, 128, 128), "Ship Alpha Mode", Color::Gray)
    } else {
        pair("", Color::Rgb(64, 64, 64), "0", Color::Rgb(64, 64, 64))
    }
}

/// The name and description of the register at `offset` of a nav module.
fn nav(offset: usize) -> (r: (ColoredString, ColoredString))
    ensures
        (r.0@, r.1@) == nav_register(offset as int),
{
    if offset == 0x00 {
        pair("MSTS", Color::Rgb(128, 128, 128), "Module Status", Color::Gray)
    } else if offset == 0x01 {
        pair("MMID", Color::Rgb(128, 128, 128), "Module ID", Color::Gray)
    } else if offset == 0x04 {
        pair("NASx", Color::Rgb(128, 128, 128), "Abs. Screen X", Color::Gray)
    } else if offset == 0x05 {
        pair("NASy", Color::Rgb(128, 128, 128), "Abs. Screen Y", Color::Gray)
    } else if offset == 0x08 {
        pair("NTSx", Color::Rgb(128, 128, 128), "Target Abs. X", Color::Gray)
    } else if offset == 0x09 {
        pair("NTSy", Color::Rgb(128, 128, 128), "Target Abs. Y", Color::Gray)
    } else if offset == 0x0a {
        pair("M", Color::Rgb(128, 128, 128), "Scratch", Color::Blue)
    } else if offset == 0x0b {
        pair("M", Color::Rgb(128, 128, 128), "Scratch", Color::Blue)
    } else if offset == 0x0c {
        pair("NTGT", Color::Rgb(128, 128, 128), "Target Selector", Color::Gray)
    } else if offset == 0x0d {
        pair("NTGI", Color::Rgb(64, 64, 64), "╭───────╮", Color::Rgb(64, 64, 64))
    } else if offset == 0x0e {
        pair("NTGI", Color::Rgb(128, 128, 128), "Target ID", Color::Gray)
    } else if offset == 0x0f {
        pair("NTGI", Color::Rgb(64, 64, 64), "╰───────╯", Color::Rgb(64, 64, 64))
    } else if offset == 0x10 {
        pair("NRDx", Color::Rgb(128, 128, 128), "Target Rel. X", Color::Gray)
    } else if offset == 0x11 {
        pair("NRDy", Color::Rgb(128, 128, 128), "Target Rel. Y", Color::Gray)
    } else if offset == 0x14 {
        pair("NRVx", Color::Rgb(128, 128, 128), "Target Rel. Vx", Color::Gray)
    } else if offset == 0x15 {
        pair("NRVy", Color::Rgb(128, 128, 128), "Target Rel. Vy", Color::Gray)
    } else if offset == 0x18 {
        pair("NAHT", Color::Rgb(128, 128, 128), "T.Abs. Heading Toward", Color::Gray)
    } else if offset == 0x1a {
        pair("NAHF", Color::Rgb(128, 128, 128), "T.Abs. Heading Away", Color::Gray)
    } else if offset == 0x1c {
        pair("NRHT", Color::Rgb(128, 128, 128), "T.Rel. Heading Toward", Color::Gray)
    } else if offset == 0x1e {
        pair("NRHF", Color::Rgb(128, 128, 128), "T.Rel. Heading Away", Color::Gray)
    } else {
        pair("", Color::Rgb(64, 64, 64), "0", Color::Rgb(64, 64, 64))
    }
}

/// The name and description of the register at `offset` of a radar module.
fn radar(offset: usize) -> (r: (ColoredString, ColoredString))
    ensures
        (r.0@, r.1@) == radar_register(offset as int),
{
    if offset == 0x00 {
        pair("MSTS", Color::Rgb(128, 128, 128), "Module Status", Color::Gray)
    } else if offset == 0x01 {
        pair("MMID", Color::Rgb(128, 128, 128), "Module ID", Color::Gray)
    } else if offset == 0x04 {
        pair("RSSH", Color::Rgb(128, 128, 128), "Select Scan Heading", Color::Gray)
    } else if offset == 0x06 {
        pair("RHLS", Color::Rgb(128, 128, 128), "Last Scan Heading", Color::Gray)
    } else if offset == 0x07 {
        pair("RNSR", Color::Rgb(128, 128, 128), "Signature Count", Color::Gray)
    } else if offset == 0x08 {
        pair("RSDT", Color::Rgb(128, 128, 128), "Signature Distance", Color::Rgb(220, 0, 0))
    } else if offset == 0x09 {
        pair("RSID", Color::Rgb(64, 64, 64), "╭──────────╮", Color::Rgb(64, 64, 64))
    } else if offset == 0x0a {
        pair("RSID", Color::Rgb(128, 128, 128), "Signature ID", Color::Rgb(220, 0, 0))
    } else if offset == 0x0b {
        pair("RSID", Color::Rgb(64, 64, 64), "╰──────────╯", Color::Rgb(64, 64, 64))
    } else if offset == 0x0c {
        pair("RSDT", Color::Rgb(128, 128, 128), "Signature Distance", Color::Rgb(220, 160, 0))
    } else if offset == 0x0d {
        pair("RSID", Color::Rgb(64, 64, 64), "╭──────────╮", Color::Rgb(64, 64, 64))
    } else if offset == 0x0e {
        pair("RSID", Color::Rgb(128, 128, 128), "Signature ID", Color::Rgb(220, 160, 0))
    } else if offset == 0x0f {
        pair("RSID", Color::Rgb(64, 64, 64), "╰──────────╯", Color::Rgb(64, 64, 64))
    } else if offset == 0x10 {
        pair("RSDT", Color::Rgb(128, 128, 128), "Signature Distance", Color::Rgb(220, 220, 0))
    } else if offset == 0x11 {
        pair("RSID", Color::Rgb(64, 64, 64), "╭──────────╮", Color::Rgb(64, 64, 64))
    } else if offset == 0x12 {
        pair("RSID", Color::Rgb(128, 128, 128), "Signature ID", Color::Rgb(220, 220, 0))
    } else if offset == 0x13 {
        pair("RSID", Color::Rgb(64, 64, 64), "╰──────────╯", Color::Rgb(64, 64, 64))
    } else if offset == 0x14 {
        pair("RSDT", Color::Rgb(128, 128, 128), "Signature Distance", Color::Rgb(40, 220, 40))
    } else if offset == 0x15 {
        pair("RSID", Color::Rgb(64, 64, 64), "╭──────────╮", Color::Rgb(64, 64, 64))
    } else if offset == 0x16 {
        pair("RSID", Color::Rgb(128, 128, 128), "Signature ID", Color::Rgb(40, 220, 40))
    } else if offset == 0x17 {
        pair("RSID", Color::Rgb(64, 64, 64), "╰──────────╯", Color::Rgb(64, 64, 64))
    } else if offset == 0x18 {
        pair("RSDT", Color::Rgb(128, 128, 128), "Signature Distance", Color::Rgb(60, 80, 220))
    } else if offset == 0x19 {
        pair("RSID", Color::Rgb(64, 64, 64), "╭──────────╮", Color::Rgb(64, 64, 64))
    } else if offset == 0x1a {
        pair("RSID", Color::Rgb(128, 128, 128), "Signature ID", Color::Rgb(60, 80, 220))
    } else if offset == 0x1b {
        pair("RSID", Color::Rgb(64, 64, 64), "╰──────────╯", Color::Rgb(64, 64, 64))
    } else if offset == 0x1c {
        pair("RSDT", Color::Rgb(128, 128, 128), "Signature Distance", Color::Rgb(140, 80, 200))
    } else if offset == 0x1d {
        pair("RSID", Color::Rgb(64, 64, 64), "╭──────────╮", Color::Rgb(64, 64, 64))
    } else if offset == 0x1e {
        pair("RSID", Color::Rgb(128, 128, 128), "Signature ID", Color::Rgb(140, 80, 200))
    } else if offset == 0x1f {
        pair("RSID", Color::Rgb(64, 64, 64), "╰──────────╯", Color::Rgb(64, 64, 64))
    } else {
        pair("", Color::Rgb(64, 64, 64), "0", Color::Rgb(64, 64, 64))
    }
}

} // verus!
