//! The messages that pass between the operator's console and the session
//! controller: commands one way, events the other.

use vstd::prelude::*;

verus! {

/// The number of commands that may wait for the controller; the operator's
/// side is held up while as many wait.
pub const COMMAND_CAPACITY: usize = 16;

/// The address at which the code of a program begins: the code region of a
/// program binary is written there, and lines of code are assembled there.
pub const CODE_ADDRESS: u16 = 0x40;

/// A request of the operator to the session controller.
#[derive(Debug, Clone, PartialEq, Eq)]
pub enum SimCommand {
    /// Let the active user's program run.
    Run,
    /// Advance the active user's program past its current sleep.
    Step,
    /// Stop the active user's program.
    Halt,
    /// Reinitialise the active user's state altogether.
    Reset,
    /// Reinitialise the execution state and keep the instantiation.
    Restart,
    /// Switch tracing on or off.
    Debug(bool),
    /// Set the number of engine steps per wake when running freely.
    TickRate(usize),
    /// Make sure the active user has a context.
    Summon,
    /// Write one word at an address.
    Write(u16, u16),
    /// Ask for the word at an address.
    Read(u16),
    /// Write consecutive words from an address on.
    WriteAll(u16, Vec<u16>),
    /// Make another user the active one.
    SetUser(u64),
    /// Assemble a console line into the registers.
    WriteCommand(String),
    /// Assemble a console line into the code region.
    CodeCommand(String),
    /// Replace the active user's breakpoints.
    Breakpoints(Vec<u16>),
}

/// What a command says, with its words and text as sequences.
pub enum SimCommandView {
    Run,
    Step,
    Halt,
    Reset,
    Restart,
    Debug(bool),
    TickRate(usize),
    Summon,
    Write(u16, u16),
    Read(u16),
    WriteAll(u16, Seq<u16>),
    SetUser(u64),
    WriteCommand(Seq<char>),
    CodeCommand(Seq<char>),
    Breakpoints(Seq<u16>),
}

impl View for SimCommand {
    type V = SimCommandView;

    open spec fn view(&self) -> SimCommandView {
        match *self {
            SimCommand::Run => SimCommandView::Run,
            SimCommand::Step => SimCommandView::Step,
            SimCommand::Halt => SimCommandView::Halt,
            SimCommand::Reset => SimCommandView::Reset,
            SimCommand::Restart => SimCommandView::Restart,
            SimCommand::Debug(on) => SimCommandView::Debug(on),
            SimCommand::TickRate(n) => SimCommandView::TickRate(n),
            SimCommand::Summon => SimCommandView::Summon,
            SimCommand::Write(addr, value) => SimCommandView::Write(addr, value),
            SimCommand::Read(addr) => SimCommandView::Read(addr),
            SimCommand::WriteAll(addr, words) => SimCommandView::WriteAll(addr, words@),
            SimCommand::SetUser(user) => SimCommandView::SetUser(user),
            SimCommand::WriteCommand(text) => SimCommandView::WriteCommand(text@),
            SimCommand::CodeCommand(text) => SimCommandView::CodeCommand(text@),
            SimCommand::Breakpoints(addrs) => SimCommandView::Breakpoints(addrs@),
        }
    }
}

/// What each command of a list says.
pub open spec fn command_views(list: Seq<SimCommand>) -> Seq<SimCommandView> {
    list.map_values(|c: SimCommand| c@)
}

/// The run state of one user's program, as the controller reports it.
#[derive(Debug, Clone, PartialEq, Eq)]
pub struct SimStateUpdate {
    pub running: bool,
    pub debug_mode: bool,
    pub sleep: u32,
    pub defer: bool,
    pub halt_reason: Option<String>,
}

/// What a run-state report says.
pub struct SimStateUpdateView {
    pub running: bool,
    pub debug_mode: bool,
    pub sleep: u32,
    pub defer: bool,
    pub halt_reason: Option<Seq<char>>,
}

impl View for SimStateUpdate {
    type V = SimStateUpdateView;

    open spec fn view(&self) -> SimStateUpdateView {
        SimStateUpdateView {
            running: self.running,
            debug_mode: self.debug_mode,
            sleep: self.sleep,
            defer: self.defer,
            halt_reason: match self.halt_reason {
                Some(reason) => Some(reason@),
                None => None,
            },
        }
    }
}

/// Where a ship is and how it looks. Position and heading are carried as the
/// bit patterns of their single-precision values.
#[derive(Debug, Clone, Copy, PartialEq, Eq, Structural)]
pub struct ShipState {
    pub x_bits: u32,
    pub y_bits: u32,
    pub heading_bits: u32,
    pub color: u16,
}

/// A report of the session controller to the operator.
#[derive(Debug, Clone, PartialEq, Eq)]
pub enum SimOutput {
    /// The word at one address of a user's memory.
    MemoryValue(u64, u16, u16),
    /// Consecutive words of a user's memory from an address on.
    MemoryValues(u64, u16, Vec<u16>),
    /// The active user has changed.
    ChangeUser(u64),
    /// A command has failed.
    Error(String),
    /// The run state of a user's program.
    SimState(u64, SimStateUpdate),
    /// The state of a user's ship.
    ShipState(u64, ShipState),
}

/// What an event says, with its words and text as sequences.
pub enum SimOutputView {
    MemoryValue(u64, u16, u16),
    MemoryValues(u64, u16, Seq<u16>),
    ChangeUser(u64),
    Error(Seq<char>),
    SimState(u64, SimStateUpdateView),
    ShipState(u64, ShipState),
}

impl View for SimOutput {
    type V = SimOutputView;

    open spec fn view(&self) -> SimOutputView {
        match *self {
            SimOutput::MemoryValue(user, addr, value) => SimOutputView::MemoryValue(
                user,
                addr,
                value,
            ),
            SimOutput::MemoryValues(user, addr, words) => SimOutputView::MemoryValues(
                user,
                addr,
                words@,
            ),
            SimOutput::ChangeUser(user) => SimOutputView::ChangeUser(user),
            SimOutput::Error(text) => SimOutputView::Error(text@),
            SimOutput::SimState(user, state) => SimOutputView::SimState(user, state@),
            SimOutput::ShipState(user, ship) => SimOutputView::ShipState(user, ship),
        }
    }
}

/// What each event of a list says.
pub open spec fn output_views(list: Seq<SimOutput>) -> Seq<SimOutputView> {
    list.map_values(|e: SimOutput| e@)
}

} // verus!
