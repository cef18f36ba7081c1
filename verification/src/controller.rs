//! The session controller: the decisions of the loop that owns the engine.
//!
//! The controller keeps the run flags, the active user and a queue of steps.
//! A command or a timeout adds its steps to the queue; the caller takes the
//! steps one by one, carries each request out on the engine and hands back the
//! reply, and sends each event to the operator. A reply may put further steps
//! at the head of the queue.
//!
//! Every command ends with a fresh snapshot of the active user's memory and a
//! report of the run state, whether the command's own work succeeded or not,
//! and every wake ends with a report of the ship.

use vstd::prelude::*;
use crate::console::address_after;
use crate::engine::{
    due_call, due_emit, entry_views, own_call, own_emit, string_texts, EngineReply,
    EngineReplyView, EngineRequest, EngineRequestView, Entry, EntryView, ProcessStatus, Step,
    StepView,
};
use crate::events::error_text;
use crate::protocol::{
    SimCommand, SimCommandView, SimOutput, SimOutputView, SimStateUpdate, SimStateUpdateView,
    CODE_ADDRESS,
};
use crate::text::{append_str, chars_of, split_words, string_of, texts, words};

verus! {

/// The longest time in milliseconds that the controller waits for a command
/// before it wakes without one.
pub const WAKE_MILLIS: u64 = 50;

/// The number of steps per wake with which the controller begins.
pub const DEFAULT_TICK_RATE: usize = 64;

/// The state of the session controller.
pub struct Controller {
    /// The user whose state is operated on and reported.
    pub active_user: u64,
    /// Whether the program is traced step by step.
    pub debug_mode: bool,
    /// Whether the program is let run.
    pub running: bool,
    /// The number of engine steps per wake when running freely.
    pub tick_rate: usize,
    /// The breakpoints that were last set.
    pub breakpoints: Vec<u16>,
    /// The steps that are still to be taken, next first.
    pub queue: Vec<Entry>,
    /// Whether the step that was taken last belongs to a command's own work.
    pub in_own_work: bool,
}

/// The controller's state with its lists as sequences.
pub struct ControllerView {
    pub active_user: u64,
    pub debug_mode: bool,
    pub running: bool,
    pub tick_rate: usize,
    pub breakpoints: Seq<u16>,
    pub queue: Seq<EntryView>,
    pub in_own_work: bool,
}

impl View for Controller {
    type V = ControllerView;

    open spec fn view(&self) -> ControllerView {
        ControllerView {
            active_user: self.active_user,
            debug_mode: self.debug_mode,
            running: self.running,
            tick_rate: self.tick_rate,
            breakpoints: self.breakpoints@,
            queue: entry_views(self.queue@),
            in_own_work: self.in_own_work,
        }
    }
}

/// The steps that close every command: a snapshot of the user's whole memory
/// and a report of the run state.
pub open spec fn resnapshot(user: u64) -> Seq<EntryView> {
    seq![due_call(EngineRequestView::Snapshot(user)), due_call(EngineRequestView::Status(user))]
}

/// The step that closes every wake: a report of the user's ship.
pub open spec fn ship_report(user: u64) -> Seq<EntryView> {
    seq![due_call(EngineRequestView::Ship(user))]
}

/// The words of a line that are handed to the assembler: all but the first,
/// which names the sub-command.
pub open spec fn source_words(line: Seq<char>) -> Seq<Seq<char>> {
    if words(line).len() > 0 {
        words(line).skip(1)
    } else {
        Seq::empty()
    }
}

/// The number of steps by which a single step advances the engine: past the
/// program's sleep, and by one at least.
pub open spec fn step_ticks(sleep: u32) -> usize {
    if sleep > 1 {
        sleep as usize
    } else {
        1
    }
}

/// The report of a program's state with the controller's tracing flag.
pub open spec fn status_report(status: ProcessStatus, debug_mode: bool) -> SimStateUpdateView {
    SimStateUpdateView {
        running: status.is_running,
        debug_mode,
        sleep: status.sleep_for,
        defer: status.defer,
        halt_reason: None,
    }
}

/// The queue without the steps at its head that belong to a command's own work.
pub open spec fn given_up(queue: Seq<EntryView>) -> Seq<EntryView>
    decreases queue.len(),
{
    if queue.len() > 0 && queue[0].own {
        given_up(queue.skip(1))
    } else {
        queue
    }
}

impl ControllerView {
    /// The flags, the active user and the breakpoints after a command.
    pub open spec fn flags_after(self, command: SimCommandView) -> ControllerView {
        match command {
            SimCommandView::Run => ControllerView { running: true, ..self },
            SimCommandView::Step => ControllerView { debug_mode: true, running: true, ..self },
            SimCommandView::Halt => ControllerView { running: false, ..self },
            SimCommandView::Reset => ControllerView { debug_mode: false, running: false, ..self },
            SimCommandView::Restart => ControllerView { running: false, ..self },
            SimCommandView::Debug(on) => ControllerView { debug_mode: on, ..self },
            SimCommandView::TickRate(rate) => ControllerView { tick_rate: rate, ..self },
            SimCommandView::SetUser(user) => ControllerView { active_user: user, ..self },
            SimCommandView::Breakpoints(addrs) => ControllerView { breakpoints: addrs, ..self },
            _ => self,
        }
    }

    /// The steps of a command's own work, for the user that is active when the
    /// command arrives.
    pub open spec fn own_work(self, command: SimCommandView) -> Seq<EntryView> {
        let user = self.active_user;
        match command {
            SimCommandView::Run => seq![own_call(EngineRequestView::Run(user))],
            SimCommandView::Step => seq![
                own_call(EngineRequestView::Run(user)),
                own_call(EngineRequestView::Sleep(user)),
            ],
            SimCommandView::Halt => seq![own_call(EngineRequestView::Halt(user))],
            SimCommandView::Reset => seq![own_call(EngineRequestView::Reset(user))],
            SimCommandView::Restart => seq![own_call(EngineRequestView::Restart(user))],
            SimCommandView::Debug(on) => Seq::empty(),
            SimCommandView::TickRate(rate) => Seq::empty(),
            SimCommandView::Summon => seq![own_call(EngineRequestView::Summon(user))],
            SimCommandView::Write(addr, value) => seq![
                own_call(EngineRequestView::Write(user, addr, value)),
            ],
            SimCommandView::Read(addr) => seq![own_call(EngineRequestView::Read(user, addr))],
            SimCommandView::WriteAll(addr, values) => Seq::new(
                values.len(),
                |i: int| own_call(EngineRequestView::Write(user, address_after(addr, i), values[i])),
            ),
            SimCommandView::SetUser(new_user) => seq![own_emit(SimOutputView::ChangeUser(new_user))],
            SimCommandView::WriteCommand(line) => seq![
                own_call(EngineRequestView::Assemble(user, source_words(line), 0)),
            ],
            SimCommandView::CodeCommand(line) => seq![
                own_call(EngineRequestView::Assemble(user, source_words(line), CODE_ADDRESS)),
            ],
            SimCommandView::Breakpoints(addrs) => seq![
                own_call(EngineRequestView::SetBreakpoints(user, addrs)),
            ],
        }
    }

    /// The steps that a command adds to the queue: its own work, the snapshot
    /// and the report of the run state, and the report of the ship.
    pub open spec fn script(self, command: SimCommandView) -> Seq<EntryView> {
        let user = self.flags_after(command).active_user;
        self.own_work(command) + resnapshot(user) + ship_report(user)
    }

    /// The controller after a command arrived.
    pub open spec fn after_command(self, command: SimCommandView) -> ControllerView {
        ControllerView { queue: self.queue + self.script(command), ..self.flags_after(command) }
    }

    /// The steps that a wake without a command adds to the queue. While the
    /// program runs freely the engine is advanced, the scheduled program is
    /// looked at for a breakpoint, and memory and run state are reported;
    /// the ship is reported in any case.
    pub open spec fn idle_script(self) -> Seq<EntryView> {
        let user = self.active_user;
        if self.running && !self.debug_mode {
            seq![
                due_call(EngineRequestView::Tick(self.tick_rate)),
                due_call(EngineRequestView::BreakpointHit),
                due_call(EngineRequestView::Snapshot(user)),
                due_call(EngineRequestView::StatusIfPresent(user)),
            ] + ship_report(user)
        } else {
            ship_report(user)
        }
    }

    /// The controller after a wake without a command.
    pub open spec fn after_timeout(self) -> ControllerView {
        ControllerView { queue: self.queue + self.idle_script(), ..self }
    }

    /// The controller with `entry` put at the head of the queue.
    pub open spec fn with_next(self, entry: EntryView) -> ControllerView {
        ControllerView { queue: seq![entry] + self.queue, ..self }
    }

    /// The controller after the engine answered a request. A failure is
    /// reported, and where it befell a command's own work, what is left of
    /// that work is given up. A program's sleep is followed by the steps that
    /// lead past it; a breakpoint that was hit switches tracing on; every
    /// other answer is reported to the operator. An answer that does not fit
    /// the request is passed over.
    pub open spec fn after_reply(
        self,
        request: EngineRequestView,
        reply: EngineReplyView,
    ) -> ControllerView {
        match (request, reply) {
            (_, EngineReplyView::Failed(why)) => ControllerView {
                queue: seq![due_emit(SimOutputView::Error(error_text(why)))] + (if self.in_own_work {
                    given_up(self.queue)
                } else {
                    self.queue
                }),
                ..self
            },
            (EngineRequestView::Sleep(user), EngineReplyView::Sleep(sleep)) => self.with_next(
                own_call(EngineRequestView::Tick(step_ticks(sleep))),
            ),
            (EngineRequestView::Read(user, addr), EngineReplyView::Word(word)) => self.with_next(
                own_emit(SimOutputView::MemoryValue(user, addr, word)),
            ),
            (EngineRequestView::Snapshot(user), EngineReplyView::Memory(memory)) => self.with_next(
                due_emit(SimOutputView::MemoryValues(user, 0, memory)),
            ),
            (EngineRequestView::Status(user), EngineReplyView::Status(status)) => self.with_next(
                due_emit(SimOutputView::SimState(user, status_report(status, self.debug_mode))),
            ),
            (
                EngineRequestView::StatusIfPresent(user),
                EngineReplyView::Status(status),
            ) => self.with_next(
                due_emit(SimOutputView::SimState(user, status_report(status, self.debug_mode))),
            ),
            (EngineRequestView::BreakpointHit, EngineReplyView::Hit(hit)) => ControllerView {
                debug_mode: self.debug_mode || hit,
                ..self
            },
            (EngineRequestView::Ship(user), EngineReplyView::Ship(ship)) => self.with_next(
                due_emit(SimOutputView::ShipState(user, ship)),
            ),
            _ => self,
        }
    }
}

/// The controller as it begins: user 0, halted, not traced, with nothing to do.
pub open spec fn initial_controller() -> ControllerView {
    ControllerView {
        active_user: 0,
        debug_mode: false,
        running: false,
        tick_rate: DEFAULT_TICK_RATE,
        breakpoints: Seq::empty(),
        queue: Seq::empty(),
        in_own_work: false,
    }
}

/// The words of a line that are handed to the assembler.
fn words_to_assemble(line: &String) -> (list: Vec<String>)
    ensures
        string_texts(list@) == source_words(line@),
{
    let chars = chars_of(line.as_str());
    let all = split_words(&chars);
    let mut list: Vec<String> = Vec::new();
    if all.len() == 0 {
        assert(string_texts(list@) =~= source_words(line@));
        return list;
    }
    let mut i: usize = 1;
    let ghost goal = source_words(line@);
    assert(string_texts(list@) =~= goal.take(0));
    while i < all.len()
        invariant
            1 <= i <= all.len(),
            texts(all@) == words(line@),
            goal == source_words(line@),
            string_texts(list@) == goal.take(i - 1),
        decreases all.len() - i,
    {
        let ghost before = string_texts(list@);
        list.push(string_of(&all[i]));
        assert(texts(all@)[i as int] == all@[i as int]@);
        assert(string_texts(list@) =~= before.push(all@[i as int]@));
        assert(string_texts(list@) =~= goal.take(i as int));
        i += 1;
    }
    assert(goal.take(i - 1) =~= goal);
    list
}

impl Controller {
    /// A controller for user 0, halted, not traced, with nothing to do.
    pub fn new() -> (controller: Controller)
        ensures
            controller@ == initial_controller(),
    {
        let controller = Controller {
            active_user: 0,
            debug_mode: false,
            running: false,
            tick_rate: DEFAULT_TICK_RATE,
            breakpoints: Vec::new(),
            queue: Vec::new(),
            in_own_work: false,
        };
        assert(controller@.queue =~= Seq::empty());
        controller
    }

    /// Adds a step at the end of the queue.
    fn add(&mut self, step: Step, own: bool)
        ensures
            final(self)@ == (ControllerView {
                queue: old(self)@.queue.push(EntryView { step: step@, own }),
                ..old(self)@
            }),
    {
        self.queue.push(Entry { step, own });
        assert(self@.queue =~= old(self)@.queue.push(EntryView { step: step@, own }));
    }

    /// Adds a request of a command's own work at the end of the queue.
    fn call(&mut self, request: EngineRequest)
        ensures
            final(self)@ == (ControllerView {
                queue: old(self)@.queue.push(own_call(request@)),
                ..old(self)@
            }),
    {
        self.add(Step::Call(request), true);
    }

    /// Adds the steps that close a command or a wake at the end of the queue.
    fn close(&mut self, snapshot: bool)
        ensures
            final(self)@ == (ControllerView {
                queue: if snapshot {
                    old(self)@.queue + resnapshot(old(self)@.active_user) + ship_report(
                        old(self)@.active_user,
                    )
                } else {
                    old(self)@.queue + ship_report(old(self)@.active_user)
                },
                ..old(self)@
            }),
    {
        let user = self.active_user;
        if snapshot {
            self.add(Step::Call(EngineRequest::Snapshot(user)), false);
            self.add(Step::Call(EngineRequest::Status(user)), false);
        }
        self.add(Step::Call(EngineRequest::Ship(user)), false);
        assert(self@.queue =~= if snapshot {
            old(self)@.queue + resnapshot(user) + ship_report(user)
        } else {
            old(self)@.queue + ship_report(user)
        });
    }

    /// Adds the steps of a command's own work at the end of the queue.
    fn begin(&mut self, command: &SimCommand)
        ensures
            final(self)@ == (ControllerView {
                queue: old(self)@.queue + old(self)@.own_work(command@),
                ..old(self)@
            }),
    {
        let user = self.active_user;
        let ghost before = self@.queue;
        let ghost work = self@.own_work(command@);
        match command {
            SimCommand::Run => {
                self.call(EngineRequest::Run(user));
            },
            SimCommand::Step => {
                self.call(EngineRequest::Run(user));
                self.call(EngineRequest::Sleep(user));
            },
            SimCommand::Halt => {
                self.call(EngineRequest::Halt(user));
            },
            SimCommand::Reset => {
                self.call(EngineRequest::Reset(user));
            },
            SimCommand::Restart => {
                self.call(EngineRequest::Restart(user));
            },
            SimCommand::Debug(_) => {},
            SimCommand::TickRate(_) => {},
            SimCommand::Summon => {
                self.call(EngineRequest::Summon(user));
            },
            SimCommand::Write(addr, value) => {
                self.call(EngineRequest::Write(user, *addr, *value));
            },
            SimCommand::Read(addr) => {
                self.call(EngineRequest::Read(user, *addr));
            },
            SimCommand::WriteAll(addr, values) => {
                let mut at: u16 = *addr;
                let mut i: usize = 0;
                assert(self@.queue =~= before + work.take(0));
                while i < values.len()
                    invariant
                        i <= values.len(),
                        user == old(self)@.active_user,
                        command@ == SimCommandView::WriteAll(*addr, values@),
                        work == old(self)@.own_work(command@),
                        at == address_after(*addr, i as int),
                        before == old(self)@.queue,
                        self@ == (ControllerView {
                            queue: before + work.take(i as int),
                            ..old(self)@
                        }),
                    decreases values.len() - i,
                {
                    self.call(EngineRequest::Write(user, at, values[i]));
                    assert(self@.queue =~= before + work.take(i + 1));
                    at = if at == 0xffff {
                        0
                    } else {
                        at + 1
                    };
                    i += 1;
                }
                assert(work.take(i as int) =~= work);
            },
            SimCommand::SetUser(new_user) => {
                self.add(Step::Emit(SimOutput::ChangeUser(*new_user)), true);
            },
            SimCommand::WriteCommand(line) => {
                self.call(EngineRequest::Assemble(user, words_to_assemble(line), 0));
            },
            SimCommand::CodeCommand(line) => {
                self.call(EngineRequest::Assemble(user, words_to_assemble(line), CODE_ADDRESS));
            },
            SimCommand::Breakpoints(addrs) => {
                let list = addrs.clone();
                assert(list@ =~= addrs@);
                self.call(EngineRequest::SetBreakpoints(user, list));
            },
        }
        assert(self@.queue =~= before + work);
    }

    /// Takes in a command of the operator.
    pub fn command(&mut self, command: SimCommand)
        ensures
            final(self)@ == old(self)@.after_command(command@),
    {
        self.begin(&command);
        match command {
            SimCommand::Run => {
                self.running = true;
            },
            SimCommand::Step => {
                self.debug_mode = true;
                self.running = true;
            },
            SimCommand::Halt => {
                self.running = false;
            },
            SimCommand::Reset => {
                self.debug_mode = false;
                self.running = false;
            },
            SimCommand::Restart => {
                self.running = false;
            },
            SimCommand::Debug(on) => {
                self.debug_mode = on;
            },
            SimCommand::TickRate(rate) => {
                self.tick_rate = rate;
            },
            SimCommand::SetUser(user) => {
                self.active_user = user;
            },
            SimCommand::Breakpoints(addrs) => {
                self.breakpoints = addrs;
            },
            _ => {},
        }
        self.close(true);
        assert(self@.queue =~= old(self)@.queue + old(self)@.script(command@));
    }

    /// Takes in a wake without a command.
    pub fn timeout(&mut self)
        ensures
            final(self)@ == old(self)@.after_timeout(),
    {
        let user = self.active_user;
        if self.running && !self.debug_mode {
            self.add(Step::Call(EngineRequest::Tick(self.tick_rate)), false);
            self.add(Step::Call(EngineRequest::BreakpointHit), false);
            self.add(Step::Call(EngineRequest::Snapshot(user)), false);
            self.add(Step::Call(EngineRequest::StatusIfPresent(user)), false);
        }
        self.close(false);
        assert(self@.queue =~= old(self)@.queue + old(self)@.idle_script());
    }

    /// The step to take next, if one is left. It leaves the queue.
    pub fn next_step(&mut self) -> (step: Option<Step>)
        ensures
            match step {
                Some(s) => old(self)@.queue.len() > 0 && s@ == old(self)@.queue[0].step
                    && final(self)@ == (ControllerView {
                    queue: old(self)@.queue.skip(1),
                    in_own_work: old(self)@.queue[0].own,
                    ..old(self)@
                }),
                None => old(self)@.queue.len() == 0 && final(self)@ == old(self)@,
            },
    {
        if self.queue.len() == 0 {
            return None;
        }
        let entry = self.queue.remove(0);
        assert(self@.queue =~= old(self)@.queue.skip(1));
        self.in_own_work = entry.own;
        Some(entry.step)
    }

    /// Puts a step at the head of the queue.
    fn put_first(&mut self, step: Step, own: bool)
        ensures
            final(self)@ == old(self)@.with_next(EntryView { step: step@, own }),
    {
        self.queue.insert(0, Entry { step, own });
        assert(self@.queue =~= seq![EntryView { step: step@, own }] + old(self)@.queue);
    }

    /// Gives up what is left of a command's own work.
    fn give_up(&mut self)
        ensures
            final(self)@ == (ControllerView { queue: given_up(old(self)@.queue), ..old(self)@ }),
    {
        while self.queue.len() > 0 && self.queue[0].own
            invariant
                given_up(self@.queue) == given_up(old(self)@.queue),
                self@ == (ControllerView { queue: self@.queue, ..old(self)@ }),
            decreases self.queue.len(),
        {
            let ghost before = self@.queue;
            self.queue.remove(0);
            assert(self@.queue =~= before.skip(1));
        }
    }

    /// Takes in the engine's answer to a request.
    pub fn reply(&mut self, request: EngineRequest, reply: EngineReply)
        ensures
            final(self)@ == old(self)@.after_reply(request@, reply@),
    {
        match (request, reply) {
            (_, EngineReply::Failed(why)) => {
                if self.in_own_work {
                    self.give_up();
                }
                let mut text = chars_of("Error: ");
                append_str(&mut text, why.as_str());
                self.put_first(Step::Emit(SimOutput::Error(string_of(&text))), false);
            },
            (EngineRequest::Sleep(_), EngineReply::Sleep(sleep)) => {
                let ticks: usize = if sleep > 1 {
                    sleep as usize
                } else {
                    1
                };
                self.put_first(Step::Call(EngineRequest::Tick(ticks)), true);
            },
            (EngineRequest::Read(user, addr), EngineReply::Word(word)) => {
                self.put_first(Step::Emit(SimOutput::MemoryValue(user, addr, word)), true);
            },
            (EngineRequest::Snapshot(user), EngineReply::Memory(memory)) => {
                self.put_first(Step::Emit(SimOutput::MemoryValues(user, 0, memory)), false);
            },
            (EngineRequest::Status(user), EngineReply::Status(status)) => {
                let update = self.report(status);
                self.put_first(Step::Emit(SimOutput::SimState(user, update)), false);
            },
            (EngineRequest::StatusIfPresent(user), EngineReply::Status(status)) => {
                let update = self.report(status);
                self.put_first(Step::Emit(SimOutput::SimState(user, update)), false);
            },
            (EngineRequest::BreakpointHit, EngineReply::Hit(hit)) => {
                self.debug_mode = self.debug_mode || hit;
            },
            (EngineRequest::Ship(user), EngineReply::Ship(ship)) => {
                self.put_first(Step::Emit(SimOutput::ShipState(user, ship)), false);
            },
            _ => {},
        }
    }

    /// The report of a program's state with the controller's tracing flag.
    fn report(&self, status: ProcessStatus) -> (update: SimStateUpdate)
        ensures
            update@ == status_report(status, self.debug_mode),
    {
        SimStateUpdate {
            running: status.is_running,
            debug_mode: self.debug_mode,
            sleep: status.sleep_for,
            defer: status.defer,
            halt_reason: None,
        }
    }
}

/// Every command, whatever it is and whatever state it meets, ends with a
/// snapshot of the memory of the user that is then active, a report of that
/// user's run state and a report of the ship, in this order; none of the three
/// belongs to the command's own work.
pub proof fn lemma_command_ends_with_snapshot(c: ControllerView, command: SimCommandView)
    ensures
        ({
            let after = c.after_command(command);
            let n = after.queue.len();
            &&& n >= c.queue.len() + 3
            &&& after.queue[n - 3] == due_call(EngineRequestView::Snapshot(after.active_user))
            &&& after.queue[n - 2] == due_call(EngineRequestView::Status(after.active_user))
            &&& after.queue[n - 1] == due_call(EngineRequestView::Ship(after.active_user))
        }),
{
}

/// Steps of a command's own work at the head of a queue are given up; the
/// first step that is not such a step, and all behind it, stay.
pub proof fn lemma_given_up(own: Seq<EntryView>, rest: Seq<EntryView>)
    requires
        forall|i: int| 0 <= i < own.len() ==> own[i].own,
        rest.len() > 0 ==> !rest[0].own,
    ensures
        given_up(own + rest) == rest,
    decreases own.len(),
{
    if own.len() == 0 {
        assert(own + rest =~= rest);
    } else {
        assert((own + rest).skip(1) =~= own.skip(1) + rest);
        lemma_given_up(own.skip(1), rest);
    }
}

/// A failure while a command's own work is under way is reported, and the
/// snapshot, the report of the run state and the report of the ship follow it
/// as if the command had succeeded.
pub proof fn lemma_failure_keeps_snapshot(
    c: ControllerView,
    left: Seq<EntryView>,
    user: u64,
    request: EngineRequestView,
    why: Seq<char>,
)
    requires
        c.in_own_work,
        forall|i: int| 0 <= i < left.len() ==> left[i].own,
        c.queue == left + resnapshot(user) + ship_report(user),
    ensures
        c.after_reply(request, EngineReplyView::Failed(why)).queue == seq![
            due_emit(SimOutputView::Error(error_text(why))),
        ] + resnapshot(user) + ship_report(user),
{
    assert(left + resnapshot(user) + ship_report(user) =~= left + (resnapshot(user) + ship_report(
        user,
    )));
    lemma_given_up(left, resnapshot(user) + ship_report(user));
    assert(seq![due_emit(SimOutputView::Error(error_text(why)))] + (resnapshot(user) + ship_report(
        user,
    )) =~= seq![due_emit(SimOutputView::Error(error_text(why)))] + resnapshot(user) + ship_report(
        user,
    ));
}

impl ControllerView {
    /// The controller after the commands of a list arrived one after the other.
    pub open spec fn after_commands(self, commands: Seq<SimCommandView>) -> ControllerView
        decreases commands.len(),
    {
        if commands.len() == 0 {
            self
        } else {
            self.after_commands(commands.drop_last()).after_command(commands.last())
        }
    }

    /// The steps of the commands of a list, one command after the other, each
    /// for the state in which the commands before it leave the controller.
    pub open spec fn scripts(self, commands: Seq<SimCommandView>) -> Seq<EntryView>
        decreases commands.len(),
    {
        if commands.len() == 0 {
            Seq::empty()
        } else {
            self.scripts(commands.drop_last()) + self.after_commands(commands.drop_last()).script(
                commands.last(),
            )
        }
    }
}

/// A failure of a step that belongs to no command's own work is reported and
/// gives up nothing: the steps of the commands that wait are all kept.
pub proof fn lemma_failure_outside_own_work(
    c: ControllerView,
    request: EngineRequestView,
    why: Seq<char>,
)
    requires
        !c.in_own_work,
    ensures
        c.after_reply(request, EngineReplyView::Failed(why)).queue == seq![
            due_emit(SimOutputView::Error(error_text(why))),
        ] + c.queue,
{
}

/// Commands are worked on in the order in which they arrive, whatever they
/// are: the queue holds what it held, then the steps of the first command,
/// then those of the second, and so on; and steps leave the queue from its
/// head only.
pub proof fn lemma_commands_in_order(c: ControllerView, commands: Seq<SimCommandView>)
    ensures
        c.after_commands(commands).queue == c.queue + c.scripts(commands),
    decreases commands.len(),
{
    if commands.len() == 0 {
        assert(c.queue + c.scripts(commands) =~= c.queue);
    } else {
        let before = commands.drop_last();
        lemma_commands_in_order(c, before);
        assert(c.queue + c.scripts(before) + c.after_commands(before).script(commands.last())
            =~= c.queue + (c.scripts(before) + c.after_commands(before).script(commands.last())));
    }
}

/// While the program runs freely, a wake without a command advances the
/// engine by the tick rate and then looks for a breakpoint; where the program
/// that is scheduled first stands at one, tracing is switched on. No halt is
/// asked of the engine.
pub proof fn lemma_breakpoint_switches_tracing(c: ControllerView)
    requires
        c.running,
        !c.debug_mode,
    ensures
        c.idle_script()[0] == due_call(EngineRequestView::Tick(c.tick_rate)),
        c.idle_script()[1] == due_call(EngineRequestView::BreakpointHit),
        c.after_reply(EngineRequestView::BreakpointHit, EngineReplyView::Hit(true)).debug_mode,
        c.after_reply(EngineRequestView::BreakpointHit, EngineReplyView::Hit(true)).running,
        forall|i: int, user: u64|
            0 <= i < c.idle_script().len() ==> c.idle_script()[i].step != StepView::Call(
                EngineRequestView::Halt(user),
            ),
{
}

} // verus!
