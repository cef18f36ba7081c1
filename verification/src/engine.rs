//! What the session controller asks of the simulation engine, and what the
//! engine answers. The controller decides; whoever owns the engine carries
//! each request out and hands back the reply.

use vstd::prelude::*;
use crate::protocol::{ShipState, SimOutput, SimOutputView};

verus! {

/// A request to the engine. Every request but `Tick` and `BreakpointHit` is
/// for one user.
#[derive(Debug, Clone, PartialEq, Eq)]
pub enum EngineRequest {
    /// Let the user's program run.
    Run(u64),
    /// Stop the user's program.
    Halt(u64),
    /// Reinitialise the user's state altogether.
    Reset(u64),
    /// Reinitialise the user's execution state.
    Restart(u64),
    /// Make sure that the user has a context.
    Summon(u64),
    /// Ask how many steps the user's program still sleeps.
    Sleep(u64),
    /// Advance the engine by a number of scheduling steps.
    Tick(usize),
    /// Write a word at an address of the user's memory.
    Write(u64, u16, u16),
    /// Ask for the word at an address of the user's memory.
    Read(u64, u16),
    /// Assemble words of source text into the user's memory from an offset on.
    Assemble(u64, Vec<String>, u16),
    /// Replace the user's breakpoints.
    SetBreakpoints(u64, Vec<u16>),
    /// Ask for the user's whole memory.
    Snapshot(u64),
    /// Ask for the state of the user's program, making the user's context
    /// where there is none.
    Status(u64),
    /// Ask for the state of the user's program, if the user has a context.
    StatusIfPresent(u64),
    /// Ask whether the program that is scheduled first stands at a breakpoint.
    BreakpointHit,
    /// Ask for the state of the user's ship.
    Ship(u64),
}

/// A request with its lists and texts as sequences.
pub enum EngineRequestView {
    Run(u64),
    Halt(u64),
    Reset(u64),
    Restart(u64),
    Summon(u64),
    Sleep(u64),
    Tick(usize),
    Write(u64, u16, u16),
    Read(u64, u16),
    Assemble(u64, Seq<Seq<char>>, u16),
    SetBreakpoints(u64, Seq<u16>),
    Snapshot(u64),
    Status(u64),
    StatusIfPresent(u64),
    BreakpointHit,
    Ship(u64),
}

/// The text of each string of a list.
pub open spec fn string_texts(list: Seq<String>) -> Seq<Seq<char>> {
    list.map_values(|s: String| s@)
}

impl View for EngineRequest {
    type V = EngineRequestView;

    open spec fn view(&self) -> EngineRequestView {
        match *self {
            EngineRequest::Run(user) => EngineRequestView::Run(user),
            EngineRequest::Halt(user) => EngineRequestView::Halt(user),
            EngineRequest::Reset(user) => EngineRequestView::Reset(user),
            EngineRequest::Restart(user) => EngineRequestView::Restart(user),
            EngineRequest::Summon(user) => EngineRequestView::Summon(user),
            EngineRequest::Sleep(user) => EngineRequestView::Sleep(user),
            EngineRequest::Tick(steps) => EngineRequestView::Tick(steps),
            EngineRequest::Write(user, addr, value) => EngineRequestView::Write(user, addr, value),
            EngineRequest::Read(user, addr) => EngineRequestView::Read(user, addr),
            EngineRequest::Assemble(user, words, offset) => EngineRequestView::Assemble(
                user,
                string_texts(words@),
                offset,
            ),
            EngineRequest::SetBreakpoints(user, addrs) => EngineRequestView::SetBreakpoints(
                user,
                addrs@,
            ),
            EngineRequest::Snapshot(user) => EngineRequestView::Snapshot(user),
            EngineRequest::Status(user) => EngineRequestView::Status(user),
            EngineRequest::StatusIfPresent(user) => EngineRequestView::StatusIfPresent(user),
            EngineRequest::BreakpointHit => EngineRequestView::BreakpointHit,
            EngineRequest::Ship(user) => EngineRequestView::Ship(user),
        }
    }
}

/// The state of a user's program, as the engine tells it.
#[derive(Debug, Clone, Copy, PartialEq, Eq, Structural)]
pub struct ProcessStatus {
    pub is_running: bool,
    pub sleep_for: u32,
    /// Whether the program has put something off.
    pub defer: bool,
}

/// The engine's answer to a request.
#[derive(Debug, Clone, PartialEq, Eq)]
pub enum EngineReply {
    /// The request was carried out and has nothing to tell.
    Done,
    /// The word that was asked for.
    Word(u16),
    /// The number of steps that the program still sleeps.
    Sleep(u32),
    /// The user's whole memory.
    Memory(Vec<u16>),
    /// The state of the user's program.
    Status(ProcessStatus),
    /// The user has no context.
    NoUser,
    /// Whether the program that is scheduled first stands at a breakpoint.
    Hit(bool),
    /// The state of the user's ship.
    Ship(ShipState),
    /// The request failed, for the reason given.
    Failed(String),
}

/// A reply with its lists and texts as sequences.
pub enum EngineReplyView {
    Done,
    Word(u16),
    Sleep(u32),
    Memory(Seq<u16>),
    Status(ProcessStatus),
    NoUser,
    Hit(bool),
    Ship(ShipState),
    Failed(Seq<char>),
}

impl View for EngineReply {
    type V = EngineReplyView;

    open spec fn view(&self) -> EngineReplyView {
        match *self {
            EngineReply::Done => EngineReplyView::Done,
            EngineReply::Word(word) => EngineReplyView::Word(word),
            EngineReply::Sleep(steps) => EngineReplyView::Sleep(steps),
            EngineReply::Memory(words) => EngineReplyView::Memory(words@),
            EngineReply::Status(status) => EngineReplyView::Status(status),
            EngineReply::NoUser => EngineReplyView::NoUser,
            EngineReply::Hit(hit) => EngineReplyView::Hit(hit),
            EngineReply::Ship(ship) => EngineReplyView::Ship(ship),
            EngineReply::Failed(why) => EngineReplyView::Failed(why@),
        }
    }
}

/// What the controller's caller is to do next.
#[derive(Debug, Clone, PartialEq, Eq)]
pub enum Step {
    /// Carry the request out on the engine and hand back the reply.
    Call(EngineRequest),
    /// Send the event to the operator.
    Emit(SimOutput),
}

/// A step with its lists and texts as sequences.
pub enum StepView {
    Call(EngineRequestView),
    Emit(SimOutputView),
}

impl View for Step {
    type V = StepView;

    open spec fn view(&self) -> StepView {
        match *self {
            Step::Call(request) => StepView::Call(request@),
            Step::Emit(event) => StepView::Emit(event@),
        }
    }
}

/// A step that waits in the controller's queue.
#[derive(Debug, Clone, PartialEq, Eq)]
pub struct Entry {
    pub step: Step,
    /// Whether the step belongs to a command's own work, which a failure of
    /// that command gives up.
    pub own: bool,
}

/// An entry with its step as a view.
pub struct EntryView {
    pub step: StepView,
    pub own: bool,
}

impl View for Entry {
    type V = EntryView;

    open spec fn view(&self) -> EntryView {
        EntryView { step: self.step@, own: self.own }
    }
}

/// What each entry of a list says.
pub open spec fn entry_views(list: Seq<Entry>) -> Seq<EntryView> {
    list.map_values(|e: Entry| e@)
}

/// A request as a step of a command's own work.
pub open spec fn own_call(request: EngineRequestView) -> EntryView {
    EntryView { step: StepView::Call(request), own: true }
}

/// An event as a step of a command's own work.
pub open spec fn own_emit(event: SimOutputView) -> EntryView {
    EntryView { step: StepView::Emit(event), own: true }
}

/// A request as a step that is taken whatever failed before it.
pub open spec fn due_call(request: EngineRequestView) -> EntryView {
    EntryView { step: StepView::Call(request), own: false }
}

/// An event as a step that is taken whatever failed before it.
pub open spec fn due_emit(event: SimOutputView) -> EntryView {
    EntryView { step: StepView::Emit(event), own: false }
}

} // verus!
