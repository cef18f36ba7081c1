//! How the console takes in keys, and how it carries out a line of the
//! command language when the operator confirms it.
//!
//! In the menu a key acts at once. At the command line keys edit the line,
//! and the enter key has it carried out: the commands it gives are handed to
//! the caller in the order in which they are to be sent. Where the line loads
//! a file, the caller sends what it was given, reads the file and hands it
//! back; the rest of the line is carried out then.

use vstd::prelude::*;
use crate::app::{
    nothing_to_do, watch_line, watch_lines, App, AppView, FileRead, FileReadView, InputMode, Key, Modifiers, Outcome, OutcomeView, PendingLine, PendingView, WatchEntry, watch_views,
};
use crate::console::{concat, copy_of, failed, finished, message, text_of, LineRun, LineRunView};
use crate::events::error_text;
use crate::mirror::SimStateView;
use crate::number::{decimal_text, hex_text, number_text};
use crate::protocol::{command_views, SimCommand, SimCommandView, CODE_ADDRESS};
use crate::scrollback::plain;
use crate::text::{append, append_str, chars_of, split_words, string_of, texts, words};
use crate::wavebin::{code_words, load_error, load_wavevm_bin, memory_words};

verus! {

/// The line that tells of a program binary that was loaded.
pub open spec fn loaded_text(memory: nat, code: nat, path: Seq<char>) -> Seq<char> {
    "Loaded "@ + number_text(memory, 10, 1) + " bytes of memory and "@ + number_text(code, 10, 1)
        + " bytes of code from "@ + path
}

/// The run after the file at `path` was read. A program binary is written to
/// the engine, its memory region from address 0 and its code region from the
/// start of the code, and a line tells of it at once. Anything else is a
/// failure of the line and sends nothing.
pub open spec fn loaded(c: LineRunView, path: Seq<char>, read: FileReadView) -> LineRunView {
    let c = LineRunView { load: None, ..c };
    match read {
        FileReadView::Missing => failed(c, message("File not found: ", path)),
        FileReadView::Failed(why) => failed(c, message("Failed to load file: ", why)),
        FileReadView::Bytes(file) => match load_error(file) {
            Some(e) => failed(c, message("Failed to load file: ", e.text())),
            None => LineRunView {
                commands: c.commands.push(SimCommandView::WriteAll(0, memory_words(file))).push(
                    SimCommandView::WriteAll(CODE_ADDRESS, code_words(file)),
                ),
                notices: c.notices.push(
                    loaded_text(memory_words(file).len(), code_words(file).len(), path),
                ),
                ..c
            },
        },
    }
}

/// The commands that write a program binary to the engine, or the line that
/// tells why the file that was read is none.
pub open spec fn file_written(read: FileReadView) -> (Seq<SimCommandView>, Option<Seq<char>>) {
    match read {
        FileReadView::Missing => (
            Seq::empty(),
            Some(message("Failed to load file: ", "File not found"@)),
        ),
        FileReadView::Failed(why) => (Seq::empty(), Some(message("Failed to load file: ", why))),
        FileReadView::Bytes(file) => match load_error(file) {
            Some(e) => (Seq::empty(), Some(message("Failed to load file: ", e.text()))),
            None => (
                seq![
                    SimCommandView::WriteAll(0, memory_words(file)),
                    SimCommandView::WriteAll(CODE_ADDRESS, code_words(file)),
                ],
                None,
            ),
        },
    }
}

/// The commands with which a session begins: the engine is reset and let run
/// traced, the program binary is written where one was given and is good, and
/// the session is left halted and not traced.
pub open spec fn first_commands(file: Option<FileReadView>) -> Seq<SimCommandView> {
    seq![SimCommandView::Reset, SimCommandView::Debug(true), SimCommandView::Run] + (match file {
        Some(read) => file_written(read).0,
        None => Seq::empty(),
    }) + seq![SimCommandView::Halt, SimCommandView::Debug(false)]
}

/// A file that is no program binary sends nothing to the engine and changes
/// nothing of the line's state but its failure.
pub proof fn lemma_rejected_load_sends_nothing(c: LineRunView, path: Seq<char>, file: Seq<u8>)
    requires
        load_error(file) is Some,
    ensures
        loaded(c, path, FileReadView::Bytes(file)) == (LineRunView {
            load: None,
            error: loaded(c, path, FileReadView::Bytes(file)).error,
            ..c
        }),
        loaded(c, path, FileReadView::Bytes(file)).error is Some,
        loaded(c, path, FileReadView::Bytes(file)).commands == c.commands,
{
}

impl AppView {
    /// The state of a line that is carried out from the word `next` on.
    pub open spec fn run_from(
        self,
        next: int,
        error: Option<Seq<char>>,
        output: Seq<Seq<char>>,
    ) -> LineRunView {
        LineRunView {
            view_mode: self.view_mode,
            active_user: self.sim_state.active_user,
            debug_mode: self.sim_state.debug_mode,
            running: self.sim_state.running,
            code_offset: self.code_offset,
            memory_scroll: self.memory_scroll,
            breakpoints: self.breakpoints,
            commands: Seq::empty(),
            exit: false,
            error,
            notices: Seq::empty(),
            output,
            remarks: Seq::empty(),
            load: None,
            next,
        }
    }

    /// The console after a line was carried out as far as `c` tells, and what
    /// the caller has to do. The line's changes are taken over and its notices
    /// printed. A line that waits for a file is kept. A line that has come to
    /// its end is closed: its failure is printed, or else the line itself and
    /// its output; the command line is emptied and the menu entered.
    pub open spec fn settled(
        self,
        c: LineRunView,
        words: Seq<Seq<char>>,
        line: Seq<char>,
        watch_lines: Seq<Seq<char>>,
    ) -> (AppView, OutcomeView) {
        let taken_over = AppView {
            sim_state: SimStateView {
                active_user: c.active_user,
                debug_mode: c.debug_mode,
                running: c.running,
                ..self.sim_state
            },
            code_offset: c.code_offset,
            memory_scroll: c.memory_scroll,
            breakpoints: c.breakpoints,
            log: self.log.print_all(c.notices),
            ..self
        };
        let outcome = OutcomeView {
            commands: c.commands,
            exit: c.exit,
            remarks: c.remarks,
            load: c.load,
        };
        match c.load {
            Some(path) => (
                AppView {
                    pending: Some(
                        PendingView {
                            words,
                            line,
                            watch_lines,
                            next: c.next,
                            error: c.error,
                            output: c.output,
                            path,
                        },
                    ),
                    ..taken_over
                },
                outcome,
            ),
            None => (
                AppView {
                    pending: None,
                    log: match c.error {
                        Some(what) => taken_over.log.print(plain(error_text(what))),
                        None => taken_over.log.print(plain(line)).print_all(c.output),
                    },
                    input: Seq::empty(),
                    cursor: 0,
                    input_mode: InputMode::Menu,
                    ..taken_over
                },
                outcome,
            ),
        }
    }

    /// The console after the command line was confirmed, and what the caller
    /// has to do.
    pub open spec fn submitted(self) -> (AppView, OutcomeView) {
        let line = self.input;
        let lines = watch_lines(self.watch_addr);
        self.settled(
            finished(self.run_from(0, None, Seq::empty()), words(line), line, lines),
            words(line),
            line,
            lines,
        )
    }

    /// The console after the file that a line waited for was read, and what
    /// the caller has to do. Without a waiting line nothing happens.
    pub open spec fn resumed(self, read: FileReadView) -> (AppView, OutcomeView) {
        match self.pending {
            None => (self, nothing_to_do()),
            Some(p) => {
                let c = loaded(self.run_from(p.next, p.error, p.output), p.path, read);
                (AppView { pending: None, ..self }).settled(
                    finished(c, p.words, p.line, p.watch_lines),
                    p.words,
                    p.line,
                    p.watch_lines,
                )
            },
        }
    }
}

/// Whatever a line does, and whatever becomes of the files it loads, it leaves
/// the mirrored memory as it is: memory changes only with the controller's
/// reports.
pub proof fn lemma_lines_keep_memory(app: AppView, read: FileReadView)
    ensures
        app.submitted().0.sim_state.memory == app.sim_state.memory,
        app.resumed(read).0.sim_state.memory == app.sim_state.memory,
{
}

/// The outcome that asks to send one command.
pub open spec fn send_one(command: SimCommandView) -> OutcomeView {
    OutcomeView { commands: seq![command], exit: false, remarks: Seq::empty(), load: None }
}

impl AppView {
    /// The console with a changed copy of the running flag.
    pub open spec fn with_running(self, running: bool) -> AppView {
        AppView { sim_state: SimStateView { running, ..self.sim_state }, ..self }
    }

    /// The console with a changed copy of the tracing flag.
    pub open spec fn with_debug(self, debug_mode: bool) -> AppView {
        AppView { sim_state: SimStateView { debug_mode, ..self.sim_state }, ..self }
    }

    /// The console after a key in the menu, and what the caller has to do.
    /// The space bar opens the command line; `r` runs, `R` halts, `s` steps,
    /// `e` restarts and `d` switches tracing; the tabulator goes through the
    /// views, forward or, with shift, backward.
    pub open spec fn keyed_in_menu(self, key: Key) -> (AppView, OutcomeView) {
        match key {
            Key::Char(c) => if c == ' ' {
                (AppView { input_mode: InputMode::Command, ..self }, nothing_to_do())
            } else if c == 'r' {
                (self.with_running(true), send_one(SimCommandView::Run))
            } else if c == 's' {
                (self.with_running(false).with_debug(true), send_one(SimCommandView::Step))
            } else if c == 'R' {
                (self.with_running(false), send_one(SimCommandView::Halt))
            } else if c == 'd' {
                (
                    self.with_debug(!self.sim_state.debug_mode),
                    send_one(SimCommandView::Debug(!self.sim_state.debug_mode)),
                )
            } else if c == 'e' {
                (self.with_running(false), send_one(SimCommandView::Restart))
            } else {
                (self, nothing_to_do())
            },
            Key::Tab => (AppView { view_mode: self.view_mode.following(), ..self }, nothing_to_do()),
            Key::BackTab => (
                AppView { view_mode: self.view_mode.preceding(), ..self },
                nothing_to_do(),
            ),
            _ => (self, nothing_to_do()),
        }
    }

    /// The console after a key at the command line, and what the caller has
    /// to do. Escape gives the line up; enter has it carried out; the other
    /// keys edit it.
    pub open spec fn keyed_at_line(self, key: Key, modifiers: Modifiers) -> (AppView, OutcomeView) {
        match key {
            Key::Esc => (
                AppView { input: Seq::empty(), cursor: 0, input_mode: InputMode::Menu, ..self },
                nothing_to_do(),
            ),
            Key::Backspace => (self.backspaced(modifiers == Modifiers::Alt), nothing_to_do()),
            Key::Delete => (
                AppView {
                    input: if self.cursor < self.input.len() {
                        self.input.remove(self.cursor)
                    } else {
                        self.input
                    },
                    ..self
                },
                nothing_to_do(),
            ),
            Key::Left => (
                AppView {
                    cursor: if self.cursor > 0 {
                        self.cursor - 1
                    } else {
                        0
                    },
                    ..self
                },
                nothing_to_do(),
            ),
            Key::Right => (
                AppView {
                    cursor: if self.cursor < self.input.len() {
                        self.cursor + 1
                    } else {
                        self.cursor
                    },
                    ..self
                },
                nothing_to_do(),
            ),
            Key::Home => (AppView { cursor: 0, ..self }, nothing_to_do()),
            Key::End => (AppView { cursor: self.input.len() as int, ..self }, nothing_to_do()),
            Key::Char(c) => (
                AppView { input: self.input.insert(self.cursor, c), cursor: self.cursor + 1, ..self },
                nothing_to_do(),
            ),
            Key::Enter => self.submitted(),
            _ => (self, nothing_to_do()),
        }
    }

    /// The console after a key, and what the caller has to do. The key goes
    /// to the menu or to the command line; `c` with control asks to leave,
    /// whatever else it does.
    pub open spec fn keyed(self, key: Key, modifiers: Modifiers) -> (AppView, OutcomeView) {
        let (app, out) = match self.input_mode {
            InputMode::Menu => self.keyed_in_menu(key),
            InputMode::Command => self.keyed_at_line(key, modifiers),
        };
        (
            app,
            OutcomeView {
                exit: out.exit || (key == Key::Char('c') && modifiers == Modifiers::Control),
                ..out
            },
        )
    }
}

/// The outcome that asks nothing of the caller.
fn quiet() -> (out: Outcome)
    ensures
        out@ == nothing_to_do(),
{
    let out = Outcome { commands: Vec::new(), exit: false, remarks: Vec::new(), load: None };
    assert(out@.commands =~= Seq::empty());
    assert(out@.remarks =~= Seq::empty());
    out
}

/// The outcome that asks to send one command.
fn one(command: SimCommand) -> (out: Outcome)
    ensures
        out@ == send_one(command@),
{
    let mut commands: Vec<SimCommand> = Vec::new();
    commands.push(command);
    let out = Outcome { commands, exit: false, remarks: Vec::new(), load: None };
    assert(out@.commands =~= seq![command@]);
    assert(out@.remarks =~= Seq::empty());
    out
}

/// The strings of a list of texts.
fn strings_of(list: &Vec<Vec<char>>) -> (strings: Vec<String>)
    ensures
        strings@.map_values(|s: String| s@) == texts(list@),
{
    let mut strings: Vec<String> = Vec::new();
    let mut i: usize = 0;
    assert(strings@.map_values(|s: String| s@) =~= texts(list@).take(0));
    while i < list.len()
        invariant
            i <= list.len(),
            strings@.map_values(|s: String| s@) == texts(list@).take(i as int),
        decreases list.len() - i,
    {
        let ghost before = strings@.map_values(|s: String| s@);
        strings.push(string_of(&list[i]));
        assert(strings@.map_values(|s: String| s@) =~= before.push(list@[i as int]@));
        assert(strings@.map_values(|s: String| s@) =~= texts(list@).take(i + 1));
        i += 1;
    }
    assert(texts(list@).take(i as int) =~= texts(list@));
    strings
}

/// The line that lists a watch entry.
fn list_watch(entry: &WatchEntry) -> (line: Vec<char>)
    ensures
        line@ == watch_line(entry@),
{
    let mut line = hex_text(entry.addr as u64, 4);
    line.push(' ');
    append(&mut line, &hex_text(entry.size as u64, 2));
    match &entry.label {
        Some(label) => {
            line.push(' ');
            append_str(&mut line, label.as_str());
        },
        None => {},
    }
    assert(line@ =~= watch_line(entry@));
    line
}

impl App {
    /// The lines that list the watch entries.
    pub fn list_watches(&self) -> (lines: Vec<Vec<char>>)
        ensures
            texts(lines@) == watch_lines(self@.watch_addr),
    {
        let mut lines: Vec<Vec<char>> = Vec::new();
        let mut i: usize = 0;
        let ghost all = watch_lines(self@.watch_addr);
        assert(texts(lines@) =~= all.take(0));
        while i < self.watch_addr.len()
            invariant
                i <= self.watch_addr.len(),
                all == watch_lines(self@.watch_addr),
                texts(lines@) == all.take(i as int),
            decreases self.watch_addr.len() - i,
        {
            let ghost before = texts(lines@);
            lines.push(list_watch(&self.watch_addr[i]));
            assert(watch_views(self.watch_addr@)[i as int] == self.watch_addr@[i as int]@);
            assert(all[i as int] == watch_line(self.watch_addr@[i as int]@));
            assert(texts(lines@) =~= before.push(all[i as int]));
            assert(texts(lines@) =~= all.take(i + 1));
            i += 1;
        }
        assert(all.take(i as int) =~= all);
        lines
    }

    /// The state of a line that is carried out from the word `next` on.
    fn begin_run(&self, next: usize, error: Option<Vec<char>>, output: Vec<Vec<char>>) -> (run:
        LineRun)
        ensures
            run@ == self@.run_from(next as int, text_of(error), texts(output@)),
    {
        let breakpoints = self.breakpoints.copy();
        let run = LineRun {
            view_mode: self.view_mode,
            active_user: self.sim_state.active_user,
            debug_mode: self.sim_state.debug_mode,
            running: self.sim_state.running,
            code_offset: self.code_offset,
            memory_scroll: self.memory_scroll,
            breakpoints,
            commands: Vec::new(),
            exit: false,
            error,
            notices: Vec::new(),
            output,
            remarks: Vec::new(),
            load: None,
            next,
        };
        assert(run@.commands =~= Seq::empty());
        assert(run@.notices =~= Seq::empty());
        assert(run@.remarks =~= Seq::empty());
        run
    }

    /// Takes over what a line has done so far, and keeps or closes the line.
    fn settle(
        &mut self,
        run: LineRun,
        words: Vec<Vec<char>>,
        line: Vec<char>,
        watch_lines: Vec<Vec<char>>,
    ) -> (out: Outcome)
        ensures
            (final(self)@, out@) == old(self)@.settled(
                run@,
                texts(words@),
                line@,
                texts(watch_lines@),
            ),
    {
        self.sim_state.active_user = run.active_user;
        self.sim_state.debug_mode = run.debug_mode;
        self.sim_state.running = run.running;
        self.code_offset = run.code_offset;
        self.memory_scroll = run.memory_scroll;
        self.breakpoints = run.breakpoints;
        self.log.print_lines(&run.notices);
        let remarks = strings_of(&run.remarks);
        match run.load {
            Some(path) => {
                let load = Some(string_of(&path));
                self.pending = Some(
                    PendingLine {
                        words,
                        line,
                        watch_lines,
                        next: run.next,
                        error: run.error,
                        output: run.output,
                        path,
                    },
                );
                Outcome { commands: run.commands, exit: run.exit, remarks, load }
            },
            None => {
                match run.error {
                    Some(what) => {
                        let mut text = chars_of("Error: ");
                        append(&mut text, &what);
                        self.log.print_plain(string_of(&text));
                    },
                    None => {
                        self.log.print_plain(string_of(&line));
                        self.log.print_lines(&run.output);
                    },
                }
                self.input.clear();
                self.input_mode = InputMode::Menu;
                self.pending = None;
                Outcome { commands: run.commands, exit: run.exit, remarks, load: None }
            },
        }
    }

    /// Takes in a key in the menu.
    fn key_in_menu(&mut self, key: Key) -> (out: Outcome)
        ensures
            (final(self)@, out@) == old(self)@.keyed_in_menu(key),
    {
        match key {
            Key::Char(c) => {
                if c == ' ' {
                    self.input_mode = InputMode::Command;
                    quiet()
                } else if c == 'r' {
                    self.sim_state.running = true;
                    one(SimCommand::Run)
                } else if c == 's' {
                    self.sim_state.running = false;
                    self.sim_state.debug_mode = true;
                    one(SimCommand::Step)
                } else if c == 'R' {
                    self.sim_state.running = false;
                    one(SimCommand::Halt)
                } else if c == 'd' {
                    self.sim_state.debug_mode = !self.sim_state.debug_mode;
                    one(SimCommand::Debug(self.sim_state.debug_mode))
                } else if c == 'e' {
                    self.sim_state.running = false;
                    one(SimCommand::Restart)
                } else {
                    quiet()
                }
            },
            Key::Tab => {
                self.view_mode = self.view_mode.next();
                quiet()
            },
            Key::BackTab => {
                self.view_mode = self.view_mode.prev();
                quiet()
            },
            _ => quiet(),
        }
    }

    /// Takes in a key at the command line.
    fn key_at_line(&mut self, key: Key, modifiers: Modifiers) -> (out: Outcome)
        ensures
            (final(self)@, out@) == old(self)@.keyed_at_line(key, modifiers),
    {
        match key {
            Key::Esc => {
                self.clear_input();
                self.input_mode = InputMode::Menu;
                quiet()
            },
            Key::Backspace => {
                let alt = match modifiers {
                    Modifiers::Alt => true,
                    _ => false,
                };
                self.input_backspace_char(alt);
                quiet()
            },
            Key::Delete => {
                self.input_delete_char();
                quiet()
            },
            Key::Left => {
                self.input_cursor_left();
                quiet()
            },
            Key::Right => {
                self.input_cursor_right();
                quiet()
            },
            Key::Home => {
                self.input_home();
                quiet()
            },
            Key::End => {
                self.input_end();
                quiet()
            },
            Key::Char(c) => {
                self.input_new_char(c);
                quiet()
            },
            Key::Enter => self.submit_line(),
            _ => quiet(),
        }
    }

    /// Takes in a key with the modifier keys that were held with it.
    pub fn handle_key(&mut self, key: Key, modifiers: Modifiers) -> (out: Outcome)
        ensures
            (final(self)@, out@) == old(self)@.keyed(key, modifiers),
    {
        let leave = match (key, modifiers) {
            (Key::Char(c), Modifiers::Control) => c == 'c',
            _ => false,
        };
        let mut out = match self.input_mode {
            InputMode::Menu => self.key_in_menu(key),
            InputMode::Command => self.key_at_line(key, modifiers),
        };
        out.exit = out.exit || leave;
        out
    }

    /// Begins a session, with the file that was named when the console was
    /// started, if one was: gives the commands to send first, and prints why
    /// a file that was named was not loaded.
    pub fn startup(&mut self, file: Option<FileRead>) -> (commands: Vec<SimCommand>)
        ensures
            command_views(commands@) == first_commands(
                match file {
                    Some(read) => Some(read@),
                    None => None,
                },
            ),
            final(self)@ == (AppView {
                log: match file {
                    Some(read) => match file_written(read@).1 {
                        Some(why) => old(self)@.log.print(plain(why)),
                        None => old(self)@.log,
                    },
                    None => old(self)@.log,
                },
                ..old(self)@
            }),
    {
        let mut commands: Vec<SimCommand> = Vec::new();
        commands.push(SimCommand::Reset);
        commands.push(SimCommand::Debug(true));
        commands.push(SimCommand::Run);
        match file {
            Some(FileRead::Missing) => {
                self.log.print_plain(
                    string_of(&concat("Failed to load file: ", &chars_of("File not found"))),
                );
            },
            Some(FileRead::Failed(why)) => {
                self.log.print_plain(
                    string_of(&concat("Failed to load file: ", &chars_of(why.as_str()))),
                );
            },
            Some(FileRead::Bytes(bytes)) => match load_wavevm_bin(bytes.as_slice()) {
                Ok(bin) => {
                    commands.push(SimCommand::WriteAll(0, bin.mem));
                    commands.push(SimCommand::WriteAll(CODE_ADDRESS, bin.code));
                },
                Err(e) => {
                    self.log.print_plain(
                        string_of(&concat("Failed to load file: ", &chars_of(e.message()))),
                    );
                },
            },
            None => {},
        }
        commands.push(SimCommand::Halt);
        commands.push(SimCommand::Debug(false));
        assert(command_views(commands@) =~= first_commands(
            match file {
                Some(read) => Some(read@),
                None => None,
            },
        ));
        commands
    }

    /// Carries out the command line.
    pub fn submit_line(&mut self) -> (out: Outcome)
        ensures
            (final(self)@, out@) == old(self)@.submitted(),
    {
        let line = copy_of(self.input.chars());
        let words = split_words(&line);
        let watch_lines = self.list_watches();
        let output: Vec<Vec<char>> = Vec::new();
        assert(texts(output@) =~= Seq::<Seq<char>>::empty());
        let mut run = self.begin_run(0, None, output);
        run.interpret(&words, &line, &watch_lines);
        self.settle(run, words, line, watch_lines)
    }

    /// Carries on with the line that waits for a file, now that the file was read.
    pub fn resume_line(&mut self, read: FileRead) -> (out: Outcome)
        ensures
            (final(self)@, out@) == old(self)@.resumed(read@),
    {
        let p = match self.pending.take() {
            Some(p) => p,
            None => {
                return quiet();
            },
        };
        let mut run = self.begin_run(p.next, p.error, p.output);
        match read {
            FileRead::Missing => {
                run.fail(concat("File not found: ", &p.path));
            },
            FileRead::Failed(why) => {
                run.fail(concat("Failed to load file: ", &chars_of(why.as_str())));
            },
            FileRead::Bytes(file) => match load_wavevm_bin(file.as_slice()) {
                Ok(bin) => {
                    let mut text = chars_of("Loaded ");
                    append(&mut text, &decimal_text(bin.mem.len() as u64));
                    append_str(&mut text, " bytes of memory and ");
                    append(&mut text, &decimal_text(bin.code.len() as u64));
                    append_str(&mut text, " bytes of code from ");
                    append(&mut text, &p.path);
                    run.send(SimCommand::WriteAll(0, bin.mem));
                    run.send(SimCommand::WriteAll(CODE_ADDRESS, bin.code));
                    let ghost before = texts(run.notices@);
                    run.notices.push(text);
                    assert(texts(run.notices@) =~= before.push(text@));
                },
                Err(e) => {
                    run.fail(concat("Failed to load file: ", &chars_of(e.message())));
                },
            },
        }
        run.interpret(&p.words, &p.line, &p.watch_lines);
        self.settle(run, p.words, p.line, p.watch_lines)
    }
}

} // verus!
