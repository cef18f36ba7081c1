use wavevm_console::app::{App, WatchEntry};
use wavevm_console::breakpoints::BreakpointSet;
use wavevm_console::code_view::{hold_i16, CodeRow, Marker};
use wavevm_console::color::{Color, ColoredString};
use wavevm_console::decoder::{operands_of, run_of, Decoded, Operands};
use wavevm_console::layout::Rect;
use wavevm_console::memory_view::{GroupPart, MemoryRow};
use wavevm_console::panels::{fits_screen, WatchRow};
use wavevm_console::pointer::MouseInput;
use wavevm_console::protocol::SimOutput;
use wavevm_console::scrollbar::CustomScrollbar;

fn console() -> App {
    let mut app = App::new(0x2000);
    app.resize(120, 40);
    app
}

fn plain(text: &str) -> Decoded {
    Decoded { text: text.to_string(), operands: None }
}

fn moving(text: &str, from_ri: bool, option: u8) -> Decoded {
    Decoded { text: text.to_string(), operands: Some(Operands { from_ri, option }) }
}

fn nops(count: usize) -> Vec<Decoded> {
    (0..count).map(|_| plain("Nop")).collect()
}

fn bar(start: i16, end: i16, length: i16) -> CustomScrollbar {
    CustomScrollbar {
        start,
        end,
        length,
        color: Color::White,
        track_color: Color::DarkGray,
        vertical: true,
    }
}

#[test]
fn code_window_is_the_usual_hundred_and_ninety_two_words() {
    let mut app = console();
    assert_eq!(app.code_window(), (0x40, 0xc0));
    app.code_offset = 0x1ff0;
    assert_eq!(app.code_window(), (0x1ff0, 0x10));
    app.code_offset = 0x2000;
    assert_eq!(app.code_window(), (0x2000, 0));
    app.code_offset = 0xffff;
    assert_eq!(app.code_window(), (0xffff, 0));
}

#[test]
fn code_rows_show_address_word_and_instruction() {
    let mut app = console();
    app.apply_event(SimOutput::MemoryValues(0, 0x40, vec![0x1111, 0x2222]));
    let rows = app.code_rows(&vec![plain("Add"), plain("Sub")]);
    assert_eq!(
        rows,
        vec![
            CodeRow {
                addr: 0x40,
                value: 0x1111,
                marker: Marker::Clear,
                at_pc: false,
                opcode: "Add".to_string(),
                literals: None,
                likely_literal: false,
            },
            CodeRow {
                addr: 0x41,
                value: 0x2222,
                marker: Marker::Clear,
                at_pc: false,
                opcode: "Sub".to_string(),
                literals: None,
                likely_literal: false,
            },
        ]
    );
}

#[test]
fn code_rows_are_as_many_as_the_window_has() {
    let mut app = console();
    assert_eq!(app.code_rows(&nops(0xc0)).len(), 0xc0);
    assert_eq!(app.code_rows(&nops(0x200)).len(), 0xc0);
    assert_eq!(app.code_rows(&nops(3)).len(), 3);
    app.code_offset = 0x1ffe;
    assert_eq!(app.code_rows(&nops(0xc0)).len(), 2);
    app.code_offset = 0x3000;
    assert_eq!(app.code_rows(&nops(0xc0)).len(), 0);
}

#[test]
fn code_rows_mark_program_counter_breakpoints_and_pointer() {
    let mut app = console();
    app.apply_event(SimOutput::MemoryValue(0, 0x3c, 0x42));
    app.breakpoints.toggle(0x41);
    app.breakpoints.toggle(0x43);
    app.handle_mouse(MouseInput::Moved, 5, 3);
    let rows = app.code_rows(&nops(6));
    let markers: Vec<Marker> = rows.iter().map(|row| row.marker).collect();
    assert_eq!(
        markers,
        vec![
            Marker::Clear,
            Marker::Breakpoint,
            Marker::Clear,
            Marker::Breakpoint,
            Marker::Clear,
            Marker::Clear,
        ]
    );
    app.handle_mouse(MouseInput::Moved, 5, 2);
    let rows = app.code_rows(&nops(6));
    assert_eq!(rows[2].marker, Marker::Hover);
    let at_pc: Vec<bool> = rows.iter().map(|row| row.at_pc).collect();
    assert_eq!(at_pc, vec![false, false, true, false, false, false]);
}

#[test]
fn pointer_is_over_the_row_that_is_drawn_under_it() {
    let mut app = console();
    app.code_scroll = 4;
    app.handle_mouse(MouseInput::Moved, 5, 0);
    for i in 0..8 {
        assert_eq!(app.is_hovered(i), i == 4);
    }
    app.handle_mouse(MouseInput::Moved, 70, 0);
    assert!(!app.is_hovered(4));
}

#[test]
fn program_counter_is_compared_unmasked() {
    let mut app = console();
    app.apply_event(SimOutput::MemoryValue(0, 0x3c, 0xe040));
    assert!(!app.code_rows(&nops(1))[0].at_pc);
    assert_eq!(app.current_instruction().0, 0x40);
}

#[test]
fn literal_operands_are_shown_and_the_rows_behind_are_dimmed() {
    let mut app = console();
    app.apply_event(SimOutput::MemoryValues(0, 0x40, vec![0xa000, 0x0001, 0x0002, 0x0003, 0x0004, 0x0005]));
    let mut decoded = nops(8);
    decoded[0] = moving("LoadInc", true, 1);
    let rows = app.code_rows(&decoded);
    assert_eq!(rows[0].literals, Some("0001, 0002".to_string()));
    let likely: Vec<bool> = rows.iter().map(|row| row.likely_literal).collect();
    assert_eq!(likely, vec![true, true, true, false, false, false, false, false]);
    assert!(rows[1..].iter().all(|row| row.literals.is_none()));
}

#[test]
fn literal_operands_are_as_many_as_the_option_says() {
    let memory: Vec<u16> = vec![0, 0x11, 0x22, 0x33, 0x44, 0x55];
    let text = |option: u8| -> String {
        operands_of(&memory, 0, &moving("x", true, option)).iter().collect()
    };
    assert_eq!(text(0), "0011");
    assert_eq!(text(1), "0011, 0022");
    assert_eq!(text(2), "0011, 0022, 0033");
    assert_eq!(text(3), "0011, 0022, 0033, 0044");
    assert_eq!(text(7), "0011, 0022, 0033, 0044");
    let one: String = operands_of(&memory, 0, &plain("x")).iter().collect();
    assert_eq!(one, "0011");
    let round: String = operands_of(&memory, 4, &moving("x", true, 2)).iter().collect();
    assert_eq!(round, "0055, 0000, 0011");
}

#[test]
fn the_run_of_literals_goes_by_the_two_low_bits_of_the_option() {
    assert_eq!(run_of(&plain("x")), None);
    assert_eq!(run_of(&moving("x", false, 3)), None);
    assert_eq!(run_of(&moving("x", true, 0)), Some(2));
    assert_eq!(run_of(&moving("x", true, 3)), Some(5));
    assert_eq!(run_of(&moving("x", true, 0xfd)), Some(3));
}

#[test]
fn an_instruction_through_another_register_has_no_literals() {
    let app = console();
    let rows = app.code_rows(&vec![moving("LoadInc", false, 3), plain("Nop")]);
    assert_eq!(rows[0].literals, None);
    assert!(!rows[0].likely_literal);
    assert!(!rows[1].likely_literal);
}

#[test]
fn a_new_run_of_literals_replaces_the_old() {
    let app = console();
    let mut decoded = nops(8);
    decoded[0] = moving("a", true, 3);
    decoded[2] = moving("b", true, 0);
    let likely: Vec<bool> = app.code_rows(&decoded).iter().map(|row| row.likely_literal).collect();
    assert_eq!(likely, vec![true, true, true, true, false, false, false, false]);
}

#[test]
fn visible_code_rows_follow_the_scroll() {
    let mut app = console();
    assert_eq!(app.visible_code_rows(0xc0), (0, 37));
    app.code_scroll = 0xb0;
    assert_eq!(app.visible_code_rows(0xc0), (0xb0, 0xc0));
    app.code_scroll = 0xc0;
    assert_eq!(app.visible_code_rows(0xc0), (0xc0, 0xc0));
    assert_eq!(app.visible_code_rows(5), (5, 5));
}

#[test]
fn code_scrollbar_goes_by_scroll_and_offset() {
    let mut app = console();
    assert_eq!(app.code_scrollbar(), bar(-0x40, -0x40 + 37 - 1 - 0x40, 0x60));
    app.code_offset = 0;
    app.code_scroll = 10;
    assert_eq!(app.code_scrollbar(), bar(10, 46, 0x60));
    app.code_offset = 0xffff;
    app.code_scroll = 0;
    assert_eq!(app.code_scrollbar(), bar(i16::MIN, i16::MIN, 0x60));
}

#[test]
fn numbers_are_held_to_sixteen_bits() {
    assert_eq!(hold_i16(0), 0);
    assert_eq!(hold_i16(-5), -5);
    assert_eq!(hold_i16(0x7fff), 0x7fff);
    assert_eq!(hold_i16(0x8000), 0x7fff);
    assert_eq!(hold_i16(-0x8000), -0x8000);
    assert_eq!(hold_i16(-0x8001), -0x8000);
    assert_eq!(hold_i16(i128::MAX), 0x7fff);
}

#[test]
fn a_breakpoint_set_holds_what_was_toggled_an_odd_number_of_times() {
    let mut set = BreakpointSet::new();
    assert!(!set.contains(0));
    assert_eq!(set.to_vec(), Vec::<u16>::new());
    for addr in [1, 2, 3, 2, 4, 1, 1] {
        set.toggle(addr);
    }
    assert_eq!(set.to_vec(), vec![3, 4, 1]);
    assert!(set.contains(1) && set.contains(3) && set.contains(4));
    assert!(!set.contains(2));
    let copy = set.copy();
    set.toggle(3);
    assert_eq!(copy.to_vec(), vec![3, 4, 1]);
    assert_eq!(set.to_vec(), vec![4, 1]);
}

#[test]
fn memory_window_is_as_high_as_the_main_panel() {
    let mut app = console();
    assert_eq!(app.memory_window(), (0, 37));
    app.memory_scroll = 0x1ffe;
    assert_eq!(app.memory_window(), (0x1ffe, 2));
    app.memory_scroll = 0x2000;
    assert_eq!(app.memory_window(), (0x2000, 0));
}

#[test]
fn memory_rows_show_registers_and_groups() {
    let mut app = console();
    app.apply_event(SimOutput::MemoryValues(0, 0, vec![7, 8, 9, 10, 11]));
    let rows = app.memory_rows(&nops(5));
    let dim = Color::Rgb(64, 64, 64);
    let nop = vec![ColoredString { text: "Nop".to_string(), color: dim }];
    assert_eq!(
        rows,
        vec![
            MemoryRow { addr: 0, value: 7, part: GroupPart::Top, desc: nop.clone(), register: Some(0), name: None },
            MemoryRow { addr: 1, value: 8, part: GroupPart::Middle, desc: nop.clone(), register: None, name: None },
            MemoryRow { addr: 2, value: 9, part: GroupPart::Middle, desc: nop.clone(), register: None, name: None },
            MemoryRow { addr: 3, value: 10, part: GroupPart::Bottom, desc: nop.clone(), register: None, name: None },
            MemoryRow { addr: 4, value: 11, part: GroupPart::Top, desc: nop.clone(), register: Some(1), name: None },
        ]
    );
}

#[test]
fn memory_rows_of_the_code_region_show_instructions() {
    let mut app = console();
    app.memory_scroll = 0x3f;
    app.apply_event(SimOutput::MemoryValues(0, 0x41, vec![0xa000, 0x0001, 0x0002]));
    let mut decoded = nops(6);
    decoded[2] = moving("LoadInc", true, 0);
    let rows = app.memory_rows(&decoded);
    let dim = Color::Rgb(64, 64, 64);
    let texts: Vec<Vec<(String, Color)>> = rows
        .iter()
        .map(|row| row.desc.iter().map(|piece| (piece.text.clone(), piece.color)).collect())
        .collect();
    assert_eq!(
        texts,
        vec![
            vec![("Nop".to_string(), dim)],
            vec![("Nop".to_string(), Color::Gray)],
            vec![
                ("LoadInc".to_string(), Color::Gray),
                (" <- ".to_string(), Color::Green),
                ("0001".to_string(), Color::Blue),
            ],
            vec![("Nop".to_string(), dim)],
            vec![("Nop".to_string(), Color::Gray)],
            vec![("Nop".to_string(), Color::Gray)],
        ]
    );
    assert_eq!(rows[0].register, None);
    assert_eq!(rows[1].register, None);
}

#[test]
fn memory_rows_of_the_module_window_name_the_registers() {
    let mut app = console();
    app.memory_scroll = 0x33c;
    app.apply_event(SimOutput::MemoryValues(0, 0x318, vec![0, 0x4000, 0x4050, 0x4040, 0x1000, 0x7777]));
    let rows = app.memory_rows(&nops(8));
    let names: Vec<Option<String>> = rows.iter().map(|row| row.name.clone().map(|n| n.text)).collect();
    assert_eq!(
        names,
        vec![
            Some("SHCC".to_string()),
            Some("SHCM".to_string()),
            Some("".to_string()),
            Some("".to_string()),
            Some("MSTS".to_string()),
            Some("MMID".to_string()),
            Some("".to_string()),
            Some("".to_string()),
        ]
    );
    assert_eq!(rows[0].desc, vec![ColoredString { text: "Ship Color".to_string(), color: Color::Gray }]);
    assert_eq!(rows[4].desc, vec![ColoredString { text: "Module Status".to_string(), color: Color::Gray }]);
    assert_eq!(app.module_of(0x3a0), None);
    assert_eq!(app.module_of(0x2ff), None);
    app.memory_scroll = 0x3a0;
    let rows = app.memory_rows(&nops(1));
    assert_eq!(rows[0].name, None);
    assert_eq!(rows[0].desc, vec![ColoredString { text: "Nop".to_string(), color: Color::Rgb(64, 64, 64) }]);
}

#[test]
fn memory_scrollbar_goes_by_the_height_of_the_watch_region() {
    let mut app = console();
    app.memory_scroll = 100;
    assert_eq!(app.memory_scrollbar(), bar(100, 122, 0x2000 - 1 - 23));
}

#[test]
fn status_panel_names_state_user_and_instruction() {
    let mut app = console();
    assert_eq!(app.status_label(), ("HALT", Color::LightRed));
    app.sim_state.debug_mode = true;
    assert_eq!(app.status_label(), ("DEBUG HALT", Color::LightRed));
    app.sim_state.running = true;
    assert_eq!(app.status_label(), ("DEBUG RUN", Color::LightYellow));
    app.sim_state.debug_mode = false;
    assert_eq!(app.status_label(), ("RUN", Color::LightGreen));
    app.sim_state.active_user = 0x2a;
    assert_eq!(app.user_title(), "User: 2a");
    app.apply_event(SimOutput::MemoryValue(0x2a, 0x3c, 0xe041));
    app.apply_event(SimOutput::MemoryValue(0x2a, 0x41, 0xbeef));
    assert_eq!(app.current_instruction(), (0x41, 0xbeef));
    assert_eq!(app.instruction_line("Halt"), "@0041[beef]: Halt");
    assert_eq!(app.sleep_text(), None);
    app.sim_state.sleep = 12;
    assert_eq!(app.sleep_text(), Some("Sleep: 12".to_string()));
}

#[test]
fn key_map_colours_follow_the_run_state() {
    let mut app = console();
    assert_eq!(app.keymap(), (Color::White, Color::Red, Color::White));
    app.sim_state.running = true;
    assert_eq!(app.keymap(), (Color::Green, Color::White, Color::White));
    app.sim_state.debug_mode = true;
    assert_eq!(app.keymap(), (Color::Yellow, Color::White, Color::Green));
    app.sim_state.running = false;
    assert_eq!(app.keymap(), (Color::White, Color::Red, Color::Green));
}

#[test]
fn register_panel_shows_two_registers_to_a_row() {
    let mut app = console();
    app.apply_event(SimOutput::MemoryValues(0, 0x3c, vec![1, 2, 3, 4]));
    let cells = app.register_cells();
    assert_eq!(cells.len(), 16);
    let names: Vec<&str> = cells.iter().map(|cell| cell.name.as_str()).collect();
    assert_eq!(
        names,
        vec![
            "  c0:", "  c1:", "  c2:", "  c3:", "  c4:", "  c5:", "  c6:", "  c7:", "  r0:", "  r1:",
            "  r2:", "  r3:", "  r4:", "  r5:", "  r6:", "  ri:",
        ]
    );
    assert_eq!((cells[0].column, cells[0].row), (2, 1));
    assert_eq!((cells[1].column, cells[1].row), (28, 1));
    assert_eq!((cells[14].column, cells[14].row), (2, 8));
    assert_eq!((cells[15].column, cells[15].row), (28, 8));
    assert_eq!(cells[14].color, Color::LightBlue);
    assert_eq!(cells[15].color, Color::LightGreen);
    assert_eq!(cells[15].values, [1, 2, 3, 4]);
    assert_eq!(cells[0].values, [0, 0, 0, 0]);
}

#[test]
fn watch_panels_stand_one_below_the_other() {
    let app = console();
    let screen = Rect { x: 0, y: 0, width: 120, height: 40 };
    assert_eq!(
        app.watch_rects(screen),
        vec![
            Rect { x: 64, y: 14, width: 56, height: 6 },
            Rect { x: 64, y: 20, width: 56, height: 6 },
            Rect { x: 64, y: 26, width: 56, height: 14 },
            Rect { x: 64, y: 44, width: 56, height: 0 },
        ]
    );
}

#[test]
fn watch_panel_rows_hold_four_words_each() {
    let mut app = console();
    app.apply_event(SimOutput::MemoryValues(0, 0x380, (1..=32).collect()));
    let entry = WatchEntry { addr: 0x380, size: 8, label: None };
    let rows = app.watch_box_rows(&entry, Rect { x: 64, y: 14, width: 56, height: 6 });
    assert_eq!(rows.len(), 8);
    assert_eq!(rows[0], WatchRow { column: 2, row: 1, addr: 0x380, values: [1, 2, 3, 4] });
    assert_eq!(rows[1], WatchRow { column: 28, row: 1, addr: 0x384, values: [5, 6, 7, 8] });
    assert_eq!(rows[7], WatchRow { column: 28, row: 4, addr: 0x39c, values: [29, 30, 31, 32] });
    let rows = app.watch_box_rows(&entry, Rect { x: 64, y: 14, width: 56, height: 4 });
    assert_eq!(rows.len(), 4);
    let rows = app.watch_box_rows(&entry, Rect { x: 64, y: 14, width: 56, height: 2 });
    assert_eq!(rows.len(), 0);
    let small = WatchEntry { addr: 0x82, size: 1, label: None };
    let rows = app.watch_box_rows(&small, Rect { x: 0, y: 0, width: 56, height: 10 });
    assert_eq!(rows.iter().map(|row| row.addr).collect::<Vec<usize>>(), vec![0x82, 0x86]);
    let none = WatchEntry { addr: 0x80, size: 0, label: None };
    assert_eq!(app.watch_box_rows(&none, Rect { x: 0, y: 0, width: 56, height: 10 }).len(), 1);
}

#[test]
fn log_lines_stand_at_the_bottom_of_the_main_panel() {
    let mut app = console();
    for i in 0..3 {
        app.log.print_plain(format!("{}", i));
    }
    assert_eq!(app.log_line_row(0), Some(34));
    assert_eq!(app.log_line_row(2), Some(36));
    assert_eq!(app.log_line_row(3), Some(37));
    assert_eq!(app.log_line_row(4), None);
    app.log.position = 2;
    assert_eq!(app.log_line_row(0), Some(36));
    assert_eq!(app.log_line_row(2), None);
    assert_eq!(app.log_scrollbar(), bar(1 - 37, 1, 3));
    for i in 0..100 {
        app.log.print_plain(format!("{}", i));
    }
    assert_eq!(app.log_line_row(0), None);
    assert_eq!(app.log_line_row(66), Some(0));
    assert_eq!(app.log_scrollbar(), bar(103 - 37, 103, 103));
}

#[test]
fn cursor_of_the_command_line_stands_behind_its_text() {
    let mut app = console();
    assert_eq!(app.cursor_position(), (2, 38));
    app.paste("abc");
    assert_eq!(app.cursor_position(), (5, 38));
}

#[test]
fn text_is_drawn_where_four_columns_fit() {
    assert!(fits_screen(120, 40, 116, 39));
    assert!(!fits_screen(120, 40, 117, 39));
    assert!(!fits_screen(120, 40, 116, 40));
    assert!(!fits_screen(3, 40, 0, 0));
    assert!(!fits_screen(0xffff, 0xffff, 0xffff, 0));
}

#[test]
fn watch_panels_are_cut_at_the_screen() {
    let app = console();
    let rects = app.watch_rects(Rect { x: 70, y: 16, width: 20, height: 6 });
    assert_eq!(
        rects,
        vec![
            Rect { x: 70, y: 16, width: 20, height: 4 },
            Rect { x: 70, y: 20, width: 20, height: 2 },
            Rect { x: 70, y: 26, width: 20, height: 0 },
            Rect { x: 70, y: 44, width: 20, height: 0 },
        ]
    );
    let rects = app.watch_rects(Rect { x: 0, y: 0, width: 10, height: 10 });
    assert_eq!(rects[0], Rect { x: 64, y: 14, width: 0, height: 0 });
}

#[test]
fn watch_panel_heights_are_what_single_precision_gives() {
    let mut app = console();
    app.ui_regions.memory = Rect { x: 0, y: 0, width: 10, height: 10 };
    let screen = Rect { x: 0, y: 0, width: 0xffff, height: 0xffff };
    for size in (0..16384u16).step_by(13).chain([1, 2, 3, 4, 5, 16383]) {
        app.watch_addr = vec![WatchEntry { addr: 0x80, size, label: None }];
        let start = 0x80usize;
        let end = start + (size * 4) as usize;
        let expected = (((end as f32 - start as f32) / 4f32).ceil() as u16 / 2).max(1) + 2;
        assert_eq!(app.watch_rects(screen)[0].height, expected, "{}", size);
    }
}

#[test]
fn watch_panel_rows_are_as_many_as_single_precision_gives() {
    let app = console();
    let room = Rect { x: 0, y: 0, width: 56, height: 0xffff };
    for (addr, size) in [(0x80u16, 0u16), (0x80, 1), (0x81, 1), (0x83, 2), (0x380, 8), (0x1000, 0x30), (0x7, 0)] {
        let entry = WatchEntry { addr, size, label: None };
        let start = addr as usize;
        let end = start + (size * 4) as usize;
        let end = (end as f32 / 4f32).ceil() as usize * 4;
        let end = if end <= start { start + 4 } else { end };
        let expected: Vec<usize> = (start..end).step_by(4).collect();
        let rows: Vec<usize> = app.watch_box_rows(&entry, room).iter().map(|row| row.addr).collect();
        assert_eq!(rows, expected, "{:x} {}", addr, size);
    }
}
