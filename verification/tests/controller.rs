use std::collections::HashMap;

use wavevm_console::controller::Controller;
use wavevm_console::engine::{EngineReply, EngineRequest, ProcessStatus, Step};
use wavevm_console::protocol::{ShipState, SimCommand, SimOutput, SimStateUpdate};

const WORDS: usize = 64;

/// A stand-in for the engine: a memory per user that keeps what is written,
/// and a program counter that `Tick` moves forward.
struct Engine {
    memory: HashMap<u64, Vec<u16>>,
    breakpoints: HashMap<u64, Vec<u16>>,
    running: HashMap<u64, bool>,
    sleep: u32,
    ticks: usize,
    calls: Vec<EngineRequest>,
}

impl Engine {
    fn new() -> Engine {
        Engine {
            memory: HashMap::new(),
            breakpoints: HashMap::new(),
            running: HashMap::new(),
            sleep: 0,
            ticks: 0,
            calls: Vec::new(),
        }
    }

    fn user(&mut self, user: u64) -> &mut Vec<u16> {
        self.memory.entry(user).or_insert_with(|| vec![0; WORDS])
    }

    fn perform(&mut self, request: &EngineRequest) -> EngineReply {
        self.calls.push(request.clone());
        match request {
            EngineRequest::Run(user) => {
                self.user(*user);
                self.running.insert(*user, true);
                EngineReply::Done
            }
            EngineRequest::Halt(user) => {
                self.running.insert(*user, false);
                EngineReply::Done
            }
            EngineRequest::Reset(user) => {
                self.memory.insert(*user, vec![0; WORDS]);
                self.running.insert(*user, false);
                EngineReply::Done
            }
            EngineRequest::Restart(user) => {
                self.running.insert(*user, false);
                EngineReply::Done
            }
            EngineRequest::Summon(user) => {
                self.user(*user);
                EngineReply::Done
            }
            EngineRequest::Sleep(_) => EngineReply::Sleep(self.sleep),
            EngineRequest::Tick(steps) => {
                self.ticks += *steps;
                EngineReply::Done
            }
            EngineRequest::Write(user, addr, value) => {
                let memory = self.user(*user);
                if (*addr as usize) < WORDS {
                    memory[*addr as usize] = *value;
                    EngineReply::Done
                } else {
                    EngineReply::Failed("address out of range".to_string())
                }
            }
            EngineRequest::Read(user, addr) => {
                let memory = self.user(*user);
                EngineReply::Word(memory.get(*addr as usize).copied().unwrap_or(0))
            }
            EngineRequest::Assemble(_, _, _) => EngineReply::Done,
            EngineRequest::SetBreakpoints(user, addrs) => {
                self.breakpoints.insert(*user, addrs.clone());
                EngineReply::Done
            }
            EngineRequest::Snapshot(user) => EngineReply::Memory(self.user(*user).clone()),
            EngineRequest::Status(user) => {
                self.user(*user);
                EngineReply::Status(self.status(*user))
            }
            EngineRequest::StatusIfPresent(user) => {
                if self.memory.contains_key(user) {
                    EngineReply::Status(self.status(*user))
                } else {
                    EngineReply::NoUser
                }
            }
            EngineRequest::BreakpointHit => {
                let hit = self.breakpoints.iter().any(|(user, addrs)| {
                    self.memory.get(user).map(|m| addrs.contains(&m[0x3c])).unwrap_or(false)
                });
                EngineReply::Hit(hit)
            }
            EngineRequest::Ship(_) => {
                EngineReply::Ship(ShipState { x_bits: 1, y_bits: 2, heading_bits: 3, color: 4 })
            }
        }
    }

    fn status(&self, user: u64) -> ProcessStatus {
        ProcessStatus {
            is_running: *self.running.get(&user).unwrap_or(&false),
            sleep_for: self.sleep,
            defer: false,
        }
    }
}

fn drain(controller: &mut Controller, engine: &mut Engine) -> Vec<SimOutput> {
    let mut events = Vec::new();
    while let Some(step) = controller.next_step() {
        match step {
            Step::Call(request) => {
                let reply = engine.perform(&request);
                controller.reply(request, reply);
            }
            Step::Emit(event) => events.push(event),
        }
    }
    events
}

fn send(controller: &mut Controller, engine: &mut Engine, command: SimCommand) -> Vec<SimOutput> {
    controller.command(command);
    drain(controller, engine)
}

fn snapshot_of(events: &[SimOutput]) -> (u64, Vec<u16>) {
    for event in events {
        if let SimOutput::MemoryValues(user, 0, words) = event {
            return (*user, words.clone());
        }
    }
    panic!("no snapshot among the events");
}

fn state_of(events: &[SimOutput]) -> (u64, SimStateUpdate) {
    for event in events {
        if let SimOutput::SimState(user, update) = event {
            return (*user, update.clone());
        }
    }
    panic!("no run state among the events");
}

#[test]
fn a_new_controller_has_nothing_to_do() {
    let mut controller = Controller::new();
    assert_eq!(controller.active_user, 0);
    assert!(!controller.running);
    assert!(!controller.debug_mode);
    assert_eq!(controller.tick_rate, 64);
    assert!(controller.breakpoints.is_empty());
    assert_eq!(controller.next_step(), None);
}

#[test]
fn every_command_is_followed_by_snapshot_run_state_and_ship() {
    let commands = vec![
        SimCommand::Run,
        SimCommand::Step,
        SimCommand::Halt,
        SimCommand::Reset,
        SimCommand::Restart,
        SimCommand::Debug(true),
        SimCommand::TickRate(3),
        SimCommand::Summon,
        SimCommand::Write(1, 2),
        SimCommand::Read(1),
        SimCommand::WriteAll(1, vec![2, 3]),
        SimCommand::SetUser(4),
        SimCommand::WriteCommand("write 1 2".to_string()),
        SimCommand::CodeCommand("code nop".to_string()),
        SimCommand::Breakpoints(vec![5]),
    ];
    let mut controller = Controller::new();
    let mut engine = Engine::new();
    for command in commands {
        let events = send(&mut controller, &mut engine, command);
        let n = events.len();
        assert!(n >= 3);
        let user = controller.active_user;
        assert!(matches!(&events[n - 3], SimOutput::MemoryValues(u, 0, words) if *u == user && words.len() == WORDS));
        assert!(matches!(&events[n - 2], SimOutput::SimState(u, _) if *u == user));
        assert!(matches!(&events[n - 1], SimOutput::ShipState(u, _) if *u == user));
    }
}

#[test]
fn write_all_shows_in_the_next_snapshot_of_that_user_only() {
    let mut controller = Controller::new();
    let mut engine = Engine::new();
    send(&mut controller, &mut engine, SimCommand::SetUser(2));
    let (_, other_before) = snapshot_of(&send(&mut controller, &mut engine, SimCommand::Summon));
    send(&mut controller, &mut engine, SimCommand::SetUser(1));
    let events = send(&mut controller, &mut engine, SimCommand::WriteAll(0x10, vec![7, 8, 9]));
    let (user, words) = snapshot_of(&events);
    assert_eq!(user, 1);
    assert_eq!(words[0x10..0x13], [7, 8, 9]);
    assert_eq!(words[0x0f], 0);
    assert_eq!(words[0x13], 0);
    let (user, other_after) = snapshot_of(&send(&mut controller, &mut engine, SimCommand::SetUser(2)));
    assert_eq!(user, 2);
    assert_eq!(other_after, other_before);
}

#[test]
fn a_written_word_is_read_back_after_the_user_was_switched_away_and_back() {
    let mut controller = Controller::new();
    let mut engine = Engine::new();
    send(&mut controller, &mut engine, SimCommand::SetUser(5));
    send(&mut controller, &mut engine, SimCommand::Write(0x20, 0xcafe));
    send(&mut controller, &mut engine, SimCommand::SetUser(6));
    send(&mut controller, &mut engine, SimCommand::Write(0x20, 0x1111));
    send(&mut controller, &mut engine, SimCommand::SetUser(5));
    let events = send(&mut controller, &mut engine, SimCommand::Read(0x20));
    assert_eq!(events[0], SimOutput::MemoryValue(5, 0x20, 0xcafe));
}

#[test]
fn set_user_reports_the_change_first() {
    let mut controller = Controller::new();
    let mut engine = Engine::new();
    let events = send(&mut controller, &mut engine, SimCommand::SetUser(9));
    assert_eq!(events[0], SimOutput::ChangeUser(9));
    assert_eq!(controller.active_user, 9);
    assert_eq!(snapshot_of(&events).0, 9);
}

#[test]
fn commands_set_the_flags() {
    let mut controller = Controller::new();
    let mut engine = Engine::new();
    send(&mut controller, &mut engine, SimCommand::Run);
    assert!(controller.running && !controller.debug_mode);
    send(&mut controller, &mut engine, SimCommand::Debug(true));
    assert!(controller.running && controller.debug_mode);
    send(&mut controller, &mut engine, SimCommand::Halt);
    assert!(!controller.running && controller.debug_mode);
    send(&mut controller, &mut engine, SimCommand::Step);
    assert!(controller.running && controller.debug_mode);
    send(&mut controller, &mut engine, SimCommand::Restart);
    assert!(!controller.running && controller.debug_mode);
    send(&mut controller, &mut engine, SimCommand::Run);
    send(&mut controller, &mut engine, SimCommand::Reset);
    assert!(!controller.running && !controller.debug_mode);
    send(&mut controller, &mut engine, SimCommand::TickRate(7));
    assert_eq!(controller.tick_rate, 7);
    send(&mut controller, &mut engine, SimCommand::Breakpoints(vec![1, 2]));
    assert_eq!(controller.breakpoints, vec![1, 2]);
}

#[test]
fn step_advances_past_the_sleep_and_by_one_at_least() {
    for (sleep, ticks) in [(0u32, 1usize), (1, 1), (2, 2), (50, 50)] {
        let mut controller = Controller::new();
        let mut engine = Engine::new();
        engine.sleep = sleep;
        send(&mut controller, &mut engine, SimCommand::Step);
        assert_eq!(
            engine.calls[..3],
            [EngineRequest::Run(0), EngineRequest::Sleep(0), EngineRequest::Tick(ticks)]
        );
        assert_eq!(engine.ticks, ticks);
    }
}

#[test]
fn the_run_state_carries_the_tracing_flag_of_the_controller() {
    let mut controller = Controller::new();
    let mut engine = Engine::new();
    engine.sleep = 4;
    let events = send(&mut controller, &mut engine, SimCommand::Step);
    assert_eq!(
        state_of(&events),
        (0, SimStateUpdate { running: true, debug_mode: true, sleep: 4, defer: false, halt_reason: None })
    );
}

#[test]
fn write_all_goes_round_at_the_end_of_the_address_space() {
    let mut controller = Controller::new();
    controller.command(SimCommand::WriteAll(0xffff, vec![1, 2]));
    assert_eq!(controller.next_step(), Some(Step::Call(EngineRequest::Write(0, 0xffff, 1))));
    assert_eq!(controller.next_step(), Some(Step::Call(EngineRequest::Write(0, 0, 2))));
    assert_eq!(controller.next_step(), Some(Step::Call(EngineRequest::Snapshot(0))));
}

#[test]
fn lines_are_handed_to_the_assembler_without_their_first_word() {
    let mut controller = Controller::new();
    controller.command(SimCommand::WriteCommand("write  0001 0002 ".to_string()));
    assert_eq!(
        controller.next_step(),
        Some(Step::Call(EngineRequest::Assemble(0, vec!["0001".to_string(), "0002".to_string()], 0)))
    );
    let mut controller = Controller::new();
    controller.active_user = 3;
    controller.command(SimCommand::CodeCommand("code".to_string()));
    assert_eq!(controller.next_step(), Some(Step::Call(EngineRequest::Assemble(3, vec![], 0x40))));
    let mut controller = Controller::new();
    controller.command(SimCommand::CodeCommand("".to_string()));
    assert_eq!(controller.next_step(), Some(Step::Call(EngineRequest::Assemble(0, vec![], 0x40))));
}

#[test]
fn a_failure_is_reported_and_the_snapshot_still_follows() {
    let mut controller = Controller::new();
    let mut engine = Engine::new();
    let events = send(&mut controller, &mut engine, SimCommand::WriteAll(62, vec![1, 2, 3, 4]));
    assert_eq!(
        engine.calls[..3],
        [EngineRequest::Write(0, 62, 1), EngineRequest::Write(0, 63, 2), EngineRequest::Write(0, 64, 3)]
    );
    assert_eq!(engine.calls[3], EngineRequest::Snapshot(0));
    assert_eq!(events[0], SimOutput::Error("Error: address out of range".to_string()));
    assert_eq!(events.len(), 4);
    assert_eq!(snapshot_of(&events).1[62..], [1, 2]);
    let events = send(&mut controller, &mut engine, SimCommand::Read(62));
    assert_eq!(events[0], SimOutput::MemoryValue(0, 62, 1));
}

#[test]
fn a_timeout_while_halted_reports_the_ship_only() {
    let mut controller = Controller::new();
    let mut engine = Engine::new();
    controller.timeout();
    let events = drain(&mut controller, &mut engine);
    assert_eq!(engine.calls, vec![EngineRequest::Ship(0)]);
    assert_eq!(
        events,
        vec![SimOutput::ShipState(0, ShipState { x_bits: 1, y_bits: 2, heading_bits: 3, color: 4 })]
    );
}

#[test]
fn a_timeout_while_traced_does_not_advance_the_engine() {
    let mut controller = Controller::new();
    let mut engine = Engine::new();
    send(&mut controller, &mut engine, SimCommand::Run);
    send(&mut controller, &mut engine, SimCommand::Debug(true));
    engine.calls.clear();
    controller.timeout();
    drain(&mut controller, &mut engine);
    assert_eq!(engine.calls, vec![EngineRequest::Ship(0)]);
    assert_eq!(engine.ticks, 0);
}

#[test]
fn a_timeout_while_running_advances_by_the_tick_rate() {
    let mut controller = Controller::new();
    let mut engine = Engine::new();
    send(&mut controller, &mut engine, SimCommand::Run);
    send(&mut controller, &mut engine, SimCommand::TickRate(10));
    engine.calls.clear();
    controller.timeout();
    let events = drain(&mut controller, &mut engine);
    assert_eq!(
        engine.calls,
        vec![
            EngineRequest::Tick(10),
            EngineRequest::BreakpointHit,
            EngineRequest::Snapshot(0),
            EngineRequest::StatusIfPresent(0),
            EngineRequest::Ship(0),
        ]
    );
    assert_eq!(engine.ticks, 10);
    assert_eq!(events.len(), 3);
    assert!(!controller.debug_mode);
}

#[test]
fn a_breakpoint_switches_tracing_on_within_one_wake() {
    let mut controller = Controller::new();
    let mut engine = Engine::new();
    send(&mut controller, &mut engine, SimCommand::Write(0x3c, 0x12));
    send(&mut controller, &mut engine, SimCommand::Breakpoints(vec![0x12]));
    send(&mut controller, &mut engine, SimCommand::Run);
    assert!(controller.running && !controller.debug_mode);
    engine.calls.clear();
    controller.timeout();
    let events = drain(&mut controller, &mut engine);
    assert!(controller.debug_mode);
    assert!(state_of(&events).1.debug_mode);
    assert!(!engine.calls.iter().any(|call| matches!(call, EngineRequest::Halt(_))));
    engine.calls.clear();
    controller.timeout();
    drain(&mut controller, &mut engine);
    assert_eq!(engine.calls, vec![EngineRequest::Ship(0)]);
}

#[test]
fn a_free_run_report_is_left_out_for_a_user_without_context() {
    let mut controller = Controller::new();
    let mut engine = Engine::new();
    controller.running = true;
    controller.timeout();
    engine.memory.clear();
    let mut events = Vec::new();
    while let Some(step) = controller.next_step() {
        match step {
            Step::Call(EngineRequest::StatusIfPresent(user)) => {
                controller.reply(EngineRequest::StatusIfPresent(user), EngineReply::NoUser);
            }
            Step::Call(EngineRequest::Snapshot(user)) => {
                controller.reply(EngineRequest::Snapshot(user), EngineReply::Memory(vec![0; WORDS]));
            }
            Step::Call(request) => {
                let reply = engine.perform(&request);
                controller.reply(request, reply);
            }
            Step::Emit(event) => events.push(event),
        }
    }
    assert_eq!(events.len(), 2);
    assert!(matches!(events[0], SimOutput::MemoryValues(0, 0, _)));
    assert!(matches!(events[1], SimOutput::ShipState(0, _)));
}

#[test]
fn commands_are_worked_on_in_the_order_of_their_arrival() {
    let mut controller = Controller::new();
    let mut engine = Engine::new();
    controller.command(SimCommand::Write(1, 10));
    controller.command(SimCommand::SetUser(2));
    controller.command(SimCommand::Write(1, 20));
    controller.command(SimCommand::Halt);
    drain(&mut controller, &mut engine);
    let own: Vec<EngineRequest> = engine
        .calls
        .iter()
        .filter(|call| matches!(call, EngineRequest::Write(..) | EngineRequest::Halt(_)))
        .cloned()
        .collect();
    assert_eq!(
        own,
        vec![EngineRequest::Write(0, 1, 10), EngineRequest::Write(2, 1, 20), EngineRequest::Halt(2)]
    );
}

#[test]
fn an_answer_that_does_not_fit_is_passed_over() {
    let mut controller = Controller::new();
    controller.reply(EngineRequest::Read(0, 1), EngineReply::Memory(vec![1]));
    controller.reply(EngineRequest::Snapshot(0), EngineReply::Done);
    controller.reply(EngineRequest::BreakpointHit, EngineReply::Hit(false));
    assert_eq!(controller.next_step(), None);
    assert!(!controller.debug_mode);
}

#[test]
fn a_failure_of_a_report_gives_up_no_command_that_waits() {
    let mut controller = Controller::new();
    let mut engine = Engine::new();
    controller.command(SimCommand::Halt);
    controller.command(SimCommand::Write(1, 2));
    let mut events = Vec::new();
    let mut failed = false;
    while let Some(step) = controller.next_step() {
        match step {
            Step::Call(EngineRequest::Ship(user)) if !failed => {
                failed = true;
                controller.reply(EngineRequest::Ship(user), EngineReply::Failed("no ship".to_string()));
            }
            Step::Call(request) => {
                let reply = engine.perform(&request);
                controller.reply(request, reply);
            }
            Step::Emit(event) => events.push(event),
        }
    }
    assert!(engine.calls.contains(&EngineRequest::Write(0, 1, 2)));
    assert!(events.contains(&SimOutput::Error("Error: no ship".to_string())));
    assert_eq!(events[2], SimOutput::Error("Error: no ship".to_string()));
    assert_eq!(snapshot_of(&events[3..]).1[1], 2);
}

#[test]
fn a_failure_gives_up_the_rest_of_its_own_command_only() {
    let mut controller = Controller::new();
    let mut engine = Engine::new();
    controller.command(SimCommand::WriteAll(63, vec![1, 2, 3]));
    controller.command(SimCommand::Write(5, 6));
    drain(&mut controller, &mut engine);
    let writes: Vec<EngineRequest> = engine
        .calls
        .iter()
        .filter(|call| matches!(call, EngineRequest::Write(..)))
        .cloned()
        .collect();
    assert_eq!(
        writes,
        vec![EngineRequest::Write(0, 63, 1), EngineRequest::Write(0, 64, 2), EngineRequest::Write(0, 5, 6)]
    );
}
