use wavevm_console::app::App;
use wavevm_console::color::{Color, ColoredString};
use wavevm_console::events::TraceRequest;
use wavevm_console::mirror::SimState;
use wavevm_console::protocol::{ShipState, SimOutput, SimStateUpdate};
use wavevm_console::scrollback::Log;

fn console() -> App {
    App::new(0x2000)
}

fn log_lines(app: &App) -> Vec<String> {
    app.log
        .lines
        .iter()
        .map(|line| line.iter().map(|piece| piece.text.as_str()).collect::<String>())
        .collect()
}

fn update(running: bool, debug_mode: bool, sleep: u32) -> SimStateUpdate {
    SimStateUpdate { running, debug_mode, sleep, defer: false, halt_reason: None }
}

#[test]
fn a_snapshot_for_the_active_user_replaces_the_mirror() {
    let mut app = console();
    let snapshot: Vec<u16> = (0..0x2000u16).map(|i| i.wrapping_mul(3)).collect();
    assert_eq!(app.apply_event(SimOutput::MemoryValues(0, 0, snapshot.clone())), None);
    assert_eq!(app.sim_state.memory, snapshot);
}

#[test]
fn reports_for_another_user_are_dropped() {
    let mut app = console();
    app.apply_event(SimOutput::MemoryValues(0, 0x10, vec![1, 2, 3]));
    let before = app.sim_state.clone();
    app.apply_event(SimOutput::MemoryValues(7, 0x10, vec![9, 9, 9]));
    app.apply_event(SimOutput::MemoryValue(7, 0x10, 8));
    app.apply_event(SimOutput::SimState(7, update(true, true, 5)));
    app.apply_event(SimOutput::ShipState(7, ShipState { x_bits: 9, y_bits: 9, heading_bits: 9, color: 9 }));
    assert_eq!(app.sim_state, before);
    assert_eq!(app.ship, ShipState { x_bits: 0, y_bits: 0, heading_bits: 0, color: 0 });
    assert_eq!(app.sim_state.memory[0x10..0x13], [1, 2, 3]);
    assert!(log_lines(&app).is_empty());
}

#[test]
fn words_are_stored_where_they_were_reported() {
    let mut app = console();
    app.apply_event(SimOutput::MemoryValues(0, 0x40, vec![0xa, 0xb, 0xc]));
    app.apply_event(SimOutput::MemoryValue(0, 0x41, 0xbeef));
    assert_eq!(app.sim_state.memory[0x3f..0x44], [0, 0xa, 0xbeef, 0xc, 0]);
}

#[test]
fn words_behind_the_end_of_the_mirror_are_dropped() {
    let mut app = App::new(0x100);
    app.apply_event(SimOutput::MemoryValues(0, 0xfe, vec![1, 2, 3, 4]));
    assert_eq!(app.sim_state.memory.len(), 0x100);
    assert_eq!(app.sim_state.memory[0xfe..], [1, 2]);
    app.apply_event(SimOutput::MemoryValue(0, 0x100, 5));
    app.apply_event(SimOutput::MemoryValues(0, 0xffff, vec![6, 7]));
    assert_eq!(app.sim_state.memory.len(), 0x100);
    assert_eq!(app.sim_state.memory[0xfe..], [1, 2]);
}

#[test]
fn mirror_follows_the_user_that_the_console_selects() {
    let mut state = SimState::new(16);
    state.store(0, 2, &vec![5]);
    state.active_user = 3;
    state.store(0, 2, &vec![6]);
    assert_eq!(state.memory[2], 5);
    state.store(3, 2, &vec![7]);
    assert_eq!(state.memory[2], 7);
    assert_eq!(state.word(2), 7);
    assert_eq!(state.word(16), 0);
}

#[test]
fn change_of_user_is_printed() {
    let mut app = console();
    app.apply_event(SimOutput::ChangeUser(42));
    assert_eq!(log_lines(&app), vec!["Active user changed to 42"]);
    assert_eq!(app.sim_state.active_user, 0);
}

#[test]
fn failure_is_printed() {
    let mut app = console();
    app.apply_event(SimOutput::Error("Error: out of fuel".to_string()));
    assert_eq!(log_lines(&app), vec!["Error: Error: out of fuel"]);
}

#[test]
fn run_state_is_mirrored() {
    let mut app = console();
    let report = SimStateUpdate {
        running: true,
        debug_mode: false,
        sleep: 9,
        defer: true,
        halt_reason: None,
    };
    assert_eq!(app.apply_event(SimOutput::SimState(0, report)), None);
    assert!(app.sim_state.running);
    assert!(!app.sim_state.debug_mode);
    assert_eq!(app.sim_state.sleep, 9);
    assert!(app.sim_state.defer);
    assert!(log_lines(&app).is_empty());
}

#[test]
fn a_traced_step_asks_for_a_line_of_the_trace() {
    let mut app = console();
    app.apply_event(SimOutput::MemoryValue(0, 0x3c, 0xe041));
    app.apply_event(SimOutput::MemoryValue(0, 0x41, 0x1234));
    let request = app.apply_event(SimOutput::SimState(0, update(true, true, 0)));
    assert_eq!(
        request,
        Some(TraceRequest { user: 0, addr: 0x41, word: 0x1234, halt_reason: None })
    );
    assert!(log_lines(&app).is_empty());
    app.print_trace(request.unwrap(), "Nop");
    assert_eq!(log_lines(&app), vec!["U0: @0041[1234] Nop"]);
    let colors: Vec<Color> = app.log.lines[0].iter().map(|piece| piece.color).collect();
    assert_eq!(colors, vec![Color::White, Color::LightBlue, Color::White, Color::White]);
}

#[test]
fn no_trace_while_asleep_halted_or_untraced() {
    for report in [update(true, true, 3), update(false, true, 0), update(true, false, 0)] {
        let mut app = console();
        assert_eq!(app.apply_event(SimOutput::SimState(0, report)), None);
    }
}

#[test]
fn a_halt_reason_is_printed() {
    let mut app = console();
    app.sim_state.active_user = 5;
    let mut report = update(false, false, 0);
    report.halt_reason = Some("fault".to_string());
    assert_eq!(app.apply_event(SimOutput::SimState(5, report)), None);
    assert_eq!(log_lines(&app), vec!["User 5 halted: fault"]);
}

#[test]
fn a_halt_reason_follows_the_line_of_the_trace() {
    let mut app = console();
    let mut report = update(true, true, 0);
    report.halt_reason = Some("fault".to_string());
    let request = app.apply_event(SimOutput::SimState(0, report)).unwrap();
    assert_eq!(request.halt_reason, Some("fault".to_string()));
    app.print_trace(request, "Halt");
    assert_eq!(log_lines(&app), vec!["U0: @0000[0000] Halt", "User 0 halted: fault"]);
}

#[test]
fn the_ship_is_mirrored_for_the_active_user() {
    let mut app = console();
    app.sim_state.active_user = 9;
    let ship = ShipState { x_bits: 1, y_bits: 2, heading_bits: 3, color: 4 };
    assert_eq!(app.apply_event(SimOutput::ShipState(9, ship)), None);
    assert_eq!(app.ship, ship);
}

#[test]
fn the_ship_of_another_user_is_dropped() {
    let mut app = console();
    let first = ShipState { x_bits: 1, y_bits: 2, heading_bits: 3, color: 4 };
    let other = ShipState { x_bits: 5, y_bits: 6, heading_bits: 7, color: 8 };
    app.apply_event(SimOutput::ShipState(0, first));
    assert_eq!(app.apply_event(SimOutput::ShipState(9, other)), None);
    assert_eq!(app.ship, first);
    assert!(log_lines(&app).is_empty());
}

#[test]
fn the_log_keeps_its_last_two_hundred_lines() {
    let mut log = Log::new();
    for i in 0..200 {
        log.print_plain(format!("{}", i));
    }
    assert_eq!(log.lines.len(), 200);
    assert_eq!(log.lines[0][0].text, "0");
    log.print_plain("200".to_string());
    assert_eq!(log.lines.len(), 200);
    assert_eq!(log.lines[0][0].text, "1");
    assert_eq!(log.lines[199][0].text, "200");
}

#[test]
fn printing_scrolls_the_log_forward_by_a_line() {
    let mut log = Log::new();
    log.print_plain("a".to_string());
    assert_eq!(log.position, 0);
    log.position = 5;
    log.print_plain("b".to_string());
    assert_eq!(log.position, 2);
    log.print_plain("c".to_string());
    assert_eq!(log.position, 1);
    log.print_plain("d".to_string());
    assert_eq!(log.position, 0);
}

#[test]
fn a_line_of_coloured_pieces_is_printed_as_given() {
    let mut log = Log::new();
    log.printc(vec![("a".to_string(), Color::Red), ("b".to_string(), Color::Green)]);
    log.print(vec![ColoredString::new("c".to_string(), Color::Blue)]);
    log.print_lines(&vec![vec!['d', 'e'], vec![]]);
    assert_eq!(
        log.lines,
        vec![
            vec![
                ColoredString { text: "a".to_string(), color: Color::Red },
                ColoredString { text: "b".to_string(), color: Color::Green },
            ],
            vec![ColoredString { text: "c".to_string(), color: Color::Blue }],
            vec![ColoredString { text: "de".to_string(), color: Color::White }],
            vec![ColoredString { text: "".to_string(), color: Color::White }],
        ]
    );
}
