use wavevm_console::app::{App, AppActions, InputMode, Key, Modifiers, ViewMode};
use wavevm_console::layout::Position;
use wavevm_console::pointer::MouseInput;
use wavevm_console::protocol::SimCommand;

fn console() -> App {
    let mut app = App::new(0x2000);
    app.resize(120, 40);
    app
}

fn text(app: &App) -> String {
    app.input.chars().iter().collect()
}

#[test]
fn a_new_console_shows_the_code_view_in_the_menu() {
    let app = App::new(0x2000);
    assert_eq!(app.view_mode, ViewMode::Code);
    assert_eq!(app.input_mode, InputMode::Menu);
    assert_eq!(app.code_offset, 0x40);
    assert_eq!(app.code_scroll, 0);
    assert_eq!(app.memory_scroll, 0);
    assert_eq!(app.sim_state.memory.len(), 0x2000);
    assert!(app.sim_state.memory.iter().all(|w| *w == 0));
    assert!(!app.sim_state.running);
    assert!(!app.sim_state.debug_mode);
    assert_eq!(app.sim_state.active_user, 0);
    assert!(app.breakpoints.to_vec().is_empty());
    assert!(!app.ui_regions.valid);
    assert_eq!(app.watch_addr.len(), 4);
    assert_eq!(app.watch_addr[0].addr, 0x380);
    assert_eq!(app.watch_addr[0].size, 8);
    assert_eq!(app.watch_addr[0].label, Some("Ship".to_string()));
    assert_eq!(app.watch_addr[2].label, None);
    assert_eq!(app.watch_addr[3].label, Some("Public Memory".to_string()));
}

#[test]
fn view_mode_cycles_both_ways() {
    assert_eq!(ViewMode::Log.next(), ViewMode::Memory);
    assert_eq!(ViewMode::Memory.next(), ViewMode::Code);
    assert_eq!(ViewMode::Code.next(), ViewMode::Log);
    assert_eq!(ViewMode::Log.prev(), ViewMode::Code);
    assert_eq!(ViewMode::Memory.prev(), ViewMode::Log);
    assert_eq!(ViewMode::Code.prev(), ViewMode::Memory);
    for view in [ViewMode::Log, ViewMode::Memory, ViewMode::Code] {
        assert_eq!(view.next().prev(), view);
        assert_eq!(view.next().next().next(), view);
    }
}

#[test]
fn input_mode_begins_in_the_menu() {
    assert_eq!(InputMode::default(), InputMode::Menu);
}

#[test]
fn menu_keys_send_their_commands() {
    let mut app = console();
    let out = app.handle_key(Key::Char('r'), Modifiers::Plain);
    assert_eq!(out.commands, vec![SimCommand::Run]);
    assert!(app.sim_state.running);
    let out = app.handle_key(Key::Char('R'), Modifiers::Plain);
    assert_eq!(out.commands, vec![SimCommand::Halt]);
    assert!(!app.sim_state.running);
    app.sim_state.running = true;
    let out = app.handle_key(Key::Char('s'), Modifiers::Plain);
    assert_eq!(out.commands, vec![SimCommand::Step]);
    assert!(!app.sim_state.running);
    assert!(app.sim_state.debug_mode);
    let out = app.handle_key(Key::Char('d'), Modifiers::Plain);
    assert_eq!(out.commands, vec![SimCommand::Debug(false)]);
    assert!(!app.sim_state.debug_mode);
    app.sim_state.running = true;
    let out = app.handle_key(Key::Char('e'), Modifiers::Plain);
    assert_eq!(out.commands, vec![SimCommand::Restart]);
    assert!(!app.sim_state.running);
}

#[test]
fn menu_tab_goes_through_the_views() {
    let mut app = console();
    app.handle_key(Key::Tab, Modifiers::Plain);
    assert_eq!(app.view_mode, ViewMode::Log);
    app.handle_key(Key::Tab, Modifiers::Plain);
    assert_eq!(app.view_mode, ViewMode::Memory);
    app.handle_key(Key::BackTab, Modifiers::Plain);
    assert_eq!(app.view_mode, ViewMode::Log);
}

#[test]
fn menu_passes_over_other_keys() {
    let mut app = console();
    for key in [Key::Char('x'), Key::Enter, Key::Esc, Key::Left, Key::Other, Key::Backspace] {
        let out = app.handle_key(key, Modifiers::Plain);
        assert_eq!(out.commands, vec![]);
        assert!(!out.exit);
    }
    assert_eq!(app.input_mode, InputMode::Menu);
    assert_eq!(text(&app), "");
}

#[test]
fn space_opens_the_command_line_and_escape_gives_it_up() {
    let mut app = console();
    app.handle_key(Key::Char(' '), Modifiers::Plain);
    assert_eq!(app.input_mode, InputMode::Command);
    app.handle_key(Key::Char('r'), Modifiers::Plain);
    app.handle_key(Key::Char(' '), Modifiers::Plain);
    assert_eq!(text(&app), "r ");
    assert!(!app.sim_state.running);
    app.handle_key(Key::Esc, Modifiers::Plain);
    assert_eq!(app.input_mode, InputMode::Menu);
    assert_eq!(text(&app), "");
}

#[test]
fn command_line_keys_edit_the_line() {
    let mut app = console();
    app.handle_key(Key::Char(' '), Modifiers::Plain);
    for c in "foo bar".chars() {
        app.handle_key(Key::Char(c), Modifiers::Plain);
    }
    app.handle_key(Key::Tab, Modifiers::Plain);
    app.handle_key(Key::BackTab, Modifiers::Plain);
    assert_eq!(app.view_mode, ViewMode::Code);
    app.handle_key(Key::Backspace, Modifiers::Alt);
    assert_eq!(text(&app), "foo ");
    app.handle_key(Key::Backspace, Modifiers::Plain);
    assert_eq!(text(&app), "foo");
    app.handle_key(Key::Backspace, Modifiers::Control);
    assert_eq!(text(&app), "fo");
    app.handle_key(Key::Home, Modifiers::Plain);
    app.handle_key(Key::Delete, Modifiers::Plain);
    assert_eq!(text(&app), "o");
    app.handle_key(Key::End, Modifiers::Plain);
    assert_eq!(app.input.cursor(), 1);
    app.handle_key(Key::Left, Modifiers::Plain);
    app.handle_key(Key::Char('g'), Modifiers::Plain);
    assert_eq!(text(&app), "go");
    app.handle_key(Key::Right, Modifiers::Plain);
    app.handle_key(Key::Right, Modifiers::Plain);
    assert_eq!(app.input.cursor(), 2);
}

#[test]
fn control_c_asks_to_leave_in_either_mode() {
    let mut app = console();
    assert!(app.handle_key(Key::Char('c'), Modifiers::Control).exit);
    assert!(!app.handle_key(Key::Char('c'), Modifiers::Plain).exit);
    assert!(!app.handle_key(Key::Char('c'), Modifiers::Alt).exit);
    assert!(!app.handle_key(Key::Char('x'), Modifiers::Control).exit);
    app.handle_key(Key::Char(' '), Modifiers::Plain);
    assert!(app.handle_key(Key::Char('c'), Modifiers::Control).exit);
    assert_eq!(text(&app), "c");
}

#[test]
fn paste_puts_text_in_at_the_cursor() {
    let mut app = console();
    app.paste("helloworld");
    for _ in 0..5 {
        app.input_cursor_left();
    }
    app.paste(", wide ");
    assert_eq!(text(&app), "hello, wide world");
    assert_eq!(app.input.cursor(), 12);
}

#[test]
fn line_editor_methods_of_the_console() {
    let mut app = console();
    app.input_new_char('a');
    app.input_new_char('b');
    app.input_new_char('c');
    app.input_cursor_left();
    app.input_delete_char();
    assert_eq!(text(&app), "ab");
    app.input_home();
    assert_eq!(app.input.cursor(), 0);
    app.input_end();
    assert_eq!(app.input.cursor(), 2);
    app.input_cursor_right();
    assert_eq!(app.input.cursor(), 2);
    app.input_backspace_char(false);
    assert_eq!(text(&app), "a");
    app.clear_input();
    assert_eq!(text(&app), "");
}

#[test]
fn a_button_that_comes_up_where_it_went_down_is_a_click() {
    let mut app = console();
    app.handle_mouse(MouseInput::LeftDown, 5, 6);
    app.handle_mouse(MouseInput::LeftUp, 5, 6);
    assert_eq!(app.mouse.clicks, vec![Position { x: 5, y: 6 }]);
    assert!(app.mouse.drops.is_empty());
}

#[test]
fn a_button_that_comes_up_elsewhere_is_a_drop() {
    let mut app = console();
    app.handle_mouse(MouseInput::LeftDown, 5, 6);
    app.handle_mouse(MouseInput::LeftUp, 7, 6);
    assert!(app.mouse.clicks.is_empty());
    assert_eq!(app.mouse.drops, vec![(Position { x: 5, y: 6 }, Position { x: 7, y: 6 })]);
}

#[test]
fn moves_and_drags_are_followed() {
    let mut app = console();
    assert_eq!(app.mouse.pos, None);
    app.handle_mouse(MouseInput::Moved, 3, 4);
    assert_eq!(app.mouse.pos, Some(Position { x: 3, y: 4 }));
    app.handle_mouse(MouseInput::LeftDown, 3, 4);
    app.handle_mouse(MouseInput::Drag, 8, 9);
    assert_eq!(app.mouse.pos, Some(Position { x: 8, y: 9 }));
    assert_eq!(app.mouse.drops, vec![(Position { x: 3, y: 4 }, Position { x: 8, y: 9 })]);
    app.handle_mouse(MouseInput::Other, 1, 1);
    assert_eq!(app.mouse.pos, Some(Position { x: 8, y: 9 }));
}

#[test]
fn click_and_drop_are_recorded_directly() {
    let mut app = console();
    app.input_click(1, 2);
    app.input_drop(1, 2, 3, 4);
    assert_eq!(app.mouse.clicks, vec![Position { x: 1, y: 2 }]);
    assert_eq!(app.mouse.drops, vec![(Position { x: 1, y: 2 }, Position { x: 3, y: 4 })]);
}

#[test]
fn wheel_moves_the_code_view_within_its_range() {
    let mut app = console();
    app.handle_mouse(MouseInput::Moved, 3, 4);
    app.handle_mouse(MouseInput::ScrollUp, 3, 4);
    assert_eq!(app.code_scroll, 0);
    app.handle_mouse(MouseInput::ScrollDown, 3, 4);
    app.handle_mouse(MouseInput::ScrollDown, 3, 4);
    assert_eq!(app.code_scroll, 2);
    app.handle_mouse(MouseInput::ScrollUp, 3, 4);
    assert_eq!(app.code_scroll, 1);
    app.input_scroll(-500);
    assert_eq!(app.code_scroll, 0xc0);
    app.input_scroll(i32::MIN);
    assert_eq!(app.code_scroll, 0xc0);
    app.input_scroll(i32::MAX);
    assert_eq!(app.code_scroll, 0);
}

#[test]
fn wheel_moves_the_memory_view_within_its_range() {
    let mut app = console();
    app.view_mode = ViewMode::Memory;
    app.handle_mouse(MouseInput::Moved, 3, 4);
    app.input_scroll(-10);
    assert_eq!(app.memory_scroll, 10);
    app.input_scroll(-100000);
    assert_eq!(app.memory_scroll, 0x2000 - 1 - 23);
    app.input_scroll(100000);
    assert_eq!(app.memory_scroll, 0);
}

#[test]
fn wheel_moves_the_log_view_within_its_range() {
    let mut app = console();
    app.view_mode = ViewMode::Log;
    app.handle_mouse(MouseInput::Moved, 3, 4);
    app.input_scroll(1);
    assert_eq!(app.log.position, 0);
    for i in 0..5 {
        app.log.print_plain(format!("line {}", i));
    }
    app.input_scroll(1);
    app.input_scroll(1);
    assert_eq!(app.log.position, 2);
    app.input_scroll(100);
    assert_eq!(app.log.position, 4);
    app.input_scroll(-1);
    assert_eq!(app.log.position, 3);
    app.input_scroll(-100);
    assert_eq!(app.log.position, 0);
}

#[test]
fn wheel_does_nothing_over_the_watch_panels_or_before_the_pointer_is_seen() {
    let mut app = console();
    app.input_scroll(-3);
    assert_eq!(app.code_scroll, 0);
    app.handle_mouse(MouseInput::Moved, 70, 20);
    app.input_scroll(-3);
    assert_eq!(app.code_scroll, 0);
    app.handle_mouse(MouseInput::Moved, 70, 5);
    app.input_scroll(-3);
    assert_eq!(app.code_scroll, 3);
}

fn click(app: &mut App, x: u16, y: u16) {
    app.handle_mouse(MouseInput::Moved, x, y);
    app.handle_mouse(MouseInput::LeftDown, x, y);
    app.handle_mouse(MouseInput::LeftUp, x, y);
}

#[test]
fn a_click_on_a_code_row_toggles_its_breakpoint() {
    let mut app = console();
    click(&mut app, 10, 3);
    app.resolve_clicks();
    assert_eq!(app.actions, vec![AppActions::Breakpoint(0x43)]);
    assert!(app.mouse.clicks.is_empty());
    let commands = app.run_actions();
    assert_eq!(commands, vec![SimCommand::Breakpoints(vec![0x43])]);
    assert_eq!(app.breakpoints.to_vec(), vec![0x43]);
    assert!(app.actions.is_empty());
}

#[test]
fn a_click_counts_for_the_row_that_is_drawn() {
    let mut app = console();
    app.code_scroll = 5;
    app.code_offset = 0x80;
    click(&mut app, 0, 2);
    app.resolve_clicks();
    assert_eq!(app.actions, vec![AppActions::Breakpoint(0x87)]);
}

#[test]
fn two_clicks_on_a_row_give_back_the_breakpoints() {
    let mut app = console();
    for addr in [0x10, 0x45, 0x20] {
        app.breakpoints.toggle(addr);
    }
    click(&mut app, 10, 5);
    app.resolve_clicks();
    assert_eq!(app.run_actions(), vec![SimCommand::Breakpoints(vec![0x10, 0x20])]);
    click(&mut app, 10, 5);
    app.resolve_clicks();
    assert_eq!(app.run_actions(), vec![SimCommand::Breakpoints(vec![0x10, 0x20, 0x45])]);
    let mut set = app.breakpoints.to_vec();
    set.sort();
    assert_eq!(set, vec![0x10, 0x20, 0x45]);
}

#[test]
fn clicks_elsewhere_are_dropped() {
    let mut app = console();
    click(&mut app, 70, 3);
    app.resolve_clicks();
    assert!(app.actions.is_empty());
    assert!(app.mouse.clicks.is_empty());
    app.view_mode = ViewMode::Memory;
    click(&mut app, 10, 3);
    app.resolve_clicks();
    assert!(app.actions.is_empty());
    assert!(app.mouse.clicks.is_empty());
    app.view_mode = ViewMode::Code;
    app.code_scroll = 0xc0;
    click(&mut app, 10, 0);
    app.resolve_clicks();
    assert!(app.actions.is_empty());
    app.code_scroll = 0;
    app.code_offset = 0x1fff;
    click(&mut app, 10, 1);
    app.resolve_clicks();
    assert!(app.actions.is_empty());
    click(&mut app, 10, 0);
    app.resolve_clicks();
    assert_eq!(app.actions, vec![AppActions::Breakpoint(0x1fff)]);
}

#[test]
fn a_click_needs_the_pointer_in_its_row() {
    let mut app = console();
    app.handle_mouse(MouseInput::Moved, 10, 3);
    app.input_click(10, 4);
    app.resolve_clicks();
    assert!(app.actions.is_empty());
    assert!(app.mouse.clicks.is_empty());
}

#[test]
fn clicks_wait_while_the_screen_is_too_small() {
    let mut app = console();
    app.resize(20, 10);
    click(&mut app, 10, 3);
    app.resolve_clicks();
    assert_eq!(app.mouse.clicks.len(), 1);
    assert!(app.actions.is_empty());
}

#[test]
fn actions_are_carried_out_last_first() {
    let mut app = console();
    app.actions = vec![AppActions::Breakpoint(1), AppActions::Breakpoint(2)];
    assert_eq!(
        app.run_actions(),
        vec![SimCommand::Breakpoints(vec![2]), SimCommand::Breakpoints(vec![2, 1])]
    );
    assert_eq!(app.run_actions(), vec![]);
}

#[test]
fn wheel_goes_by_the_cells_of_the_watch_region() {
    let mut app = console();
    let inside = [(64, 14), (119, 14), (64, 36), (119, 36)];
    let outside = [(63, 14), (64, 13), (64, 37), (62, 20), (0, 0), (119, 37)];
    for (x, y) in inside {
        app.code_scroll = 0;
        app.handle_mouse(MouseInput::Moved, x, y);
        app.input_scroll(-1);
        assert_eq!(app.code_scroll, 0, "{} {}", x, y);
    }
    for (x, y) in outside {
        app.code_scroll = 0;
        app.handle_mouse(MouseInput::Moved, x, y);
        app.input_scroll(-1);
        assert_eq!(app.code_scroll, 1, "{} {}", x, y);
    }
}

#[test]
fn a_region_at_the_edge_does_not_hold_the_last_column() {
    let mut app = console();
    app.ui_regions.memory = wavevm_console::layout::Rect { x: 0xfff0, y: 0, width: 0xffff, height: 2 };
    app.handle_mouse(MouseInput::Moved, 0xfffe, 1);
    app.input_scroll(-1);
    assert_eq!(app.code_scroll, 0);
    app.handle_mouse(MouseInput::Moved, 0xffff, 1);
    app.input_scroll(-1);
    assert_eq!(app.code_scroll, 1);
    app.handle_mouse(MouseInput::Moved, 0xfffe, 2);
    app.input_scroll(-1);
    assert_eq!(app.code_scroll, 2);
}
