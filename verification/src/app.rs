//! View and input state of the console.

use vstd::prelude::*;

use crate::breakpoints::BreakpointSet;
use crate::console::text_of;
use crate::editor::{word_start, LineEditor};
use crate::layout::{generate_regions, regions_of, Position, UIRegions};
use crate::mirror::{blank_mirror, SimState, SimStateView};
use crate::number::number_text;
use crate::pointer::{unseen, Mouse, MouseInput, MouseView};
use crate::protocol::{command_views, ShipState, SimCommand, SimCommandView};
use crate::scrollback::{empty_log, Log, LogView};
use crate::text::{chars_of, string_of, texts};

verus! {

/// Which of the two input modes the keyboard is in.
#[derive(Debug, Clone, Copy, PartialEq, Eq, Structural)]
pub enum InputMode {
    /// Single keystrokes act at once.
    Menu,
    /// Keystrokes edit the command line.
    Command,
}

impl Default for InputMode {
    fn default() -> (mode: Self)
        ensures
            mode == InputMode::Menu,
    {
        InputMode::Menu
    }
}

/// The main view that is shown, in the cyclic order Log, Memory, Code.
#[derive(Debug, Clone, Copy, PartialEq, Eq, Structural)]
pub enum ViewMode {
    Log,
    Memory,
    Code,
}

impl ViewMode {
    /// Position of the view in the cycle.
    pub open spec fn ordinal(self) -> int {
        match self {
            ViewMode::Log => 0,
            ViewMode::Memory => 1,
            ViewMode::Code => 2,
        }
    }

    /// The view one step forward in the cycle: Log, Memory, Code, and Log again.
    pub open spec fn following(self) -> ViewMode {
        match self {
            ViewMode::Log => ViewMode::Memory,
            ViewMode::Memory => ViewMode::Code,
            ViewMode::Code => ViewMode::Log,
        }
    }

    /// The view one step backward in the cycle.
    pub open spec fn preceding(self) -> ViewMode {
        match self {
            ViewMode::Log => ViewMode::Code,
            ViewMode::Memory => ViewMode::Log,
            ViewMode::Code => ViewMode::Memory,
        }
    }

    /// A step forward and a step backward undo each other, and three steps
    /// either way lead back to where they began.
    pub proof fn lemma_cycle(self)
        ensures
            self.following().preceding() == self,
            self.preceding().following() == self,
            self.following().following().following() == self,
            self.preceding().preceding().preceding() == self,
            self.following().ordinal() == (self.ordinal() + 1) % 3,
            self.preceding().ordinal() == (self.ordinal() + 2) % 3,
    {
    }

    /// The view one step forward in the cycle.
    pub fn next(self) -> (view: Self)
        ensures
            view == self.following(),
            view.ordinal() == (self.ordinal() + 1) % 3,
    {
        match self {
            ViewMode::Log => ViewMode::Memory,
            ViewMode::Memory => ViewMode::Code,
            ViewMode::Code => ViewMode::Log,
        }
    }

    /// The view one step backward in the cycle.
    pub fn prev(self) -> (view: Self)
        ensures
            view == self.preceding(),
            view.ordinal() == (self.ordinal() + 2) % 3,
    {
        match self {
            ViewMode::Log => ViewMode::Code,
            ViewMode::Memory => ViewMode::Log,
            ViewMode::Code => ViewMode::Memory,
        }
    }
}

/// Something that the console has decided on while drawing and carries out
/// before it next turns to its input.
#[derive(Debug, Clone, Copy, PartialEq, Eq, Structural)]
pub enum AppActions {
    /// Toggle the breakpoint at an address.
    Breakpoint(u16),
}

/// A range of memory that is shown in a watch panel.
#[derive(Debug, Clone, PartialEq, Eq)]
pub struct WatchEntry {
    /// The first address.
    pub addr: u16,
    /// The number of groups of four words.
    pub size: u16,
    /// The panel's title.
    pub label: Option<String>,
}

/// A watch entry with its title as a sequence.
pub struct WatchView {
    pub addr: u16,
    pub size: u16,
    pub label: Option<Seq<char>>,
}

impl View for WatchEntry {
    type V = WatchView;

    open spec fn view(&self) -> WatchView {
        WatchView {
            addr: self.addr,
            size: self.size,
            label: match self.label {
                Some(label) => Some(label@),
                None => None,
            },
        }
    }
}

/// What each watch entry of a list says.
pub open spec fn watch_views(list: Seq<WatchEntry>) -> Seq<WatchView> {
    list.map_values(|w: WatchEntry| w@)
}

/// The line that lists a watch entry: its address in four and its size in two
/// hexadecimal digits, and its title where it has one.
pub open spec fn watch_line(entry: WatchView) -> Seq<char> {
    let head = number_text(entry.addr as nat, 16, 4) + seq![' '] + number_text(
        entry.size as nat,
        16,
        2,
    );
    match entry.label {
        Some(label) => head + seq![' '] + label,
        None => head,
    }
}

/// The lines that list the watch entries.
pub open spec fn watch_lines(list: Seq<WatchView>) -> Seq<Seq<char>> {
    list.map_values(|w: WatchView| watch_line(w))
}

/// What became of the file that a `load` asked for.
#[derive(Debug, Clone, PartialEq, Eq)]
pub enum FileRead {
    /// There is no file at the path.
    Missing,
    /// The file could not be read, for the reason given.
    Failed(String),
    /// The bytes of the file.
    Bytes(Vec<u8>),
}

/// The outcome of a read with its text and bytes as sequences.
pub enum FileReadView {
    Missing,
    Failed(Seq<char>),
    Bytes(Seq<u8>),
}

impl View for FileRead {
    type V = FileReadView;

    open spec fn view(&self) -> FileReadView {
        match *self {
            FileRead::Missing => FileReadView::Missing,
            FileRead::Failed(why) => FileReadView::Failed(why@),
            FileRead::Bytes(bytes) => FileReadView::Bytes(bytes@),
        }
    }
}

/// What the caller has to do after it handed the console a key or a file.
#[derive(Debug, Clone, PartialEq, Eq)]
pub struct Outcome {
    /// Commands to send to the controller, in this order.
    pub commands: Vec<SimCommand>,
    /// Whether the operator asked to leave.
    pub exit: bool,
    /// What the line passed over, for the caller's own record.
    pub remarks: Vec<String>,
    /// The path of a file to read and hand back with `resume_line`, once the
    /// commands are sent.
    pub load: Option<String>,
}

/// An outcome with its lists and texts as sequences.
pub struct OutcomeView {
    pub commands: Seq<SimCommandView>,
    pub exit: bool,
    pub remarks: Seq<Seq<char>>,
    pub load: Option<Seq<char>>,
}

impl View for Outcome {
    type V = OutcomeView;

    open spec fn view(&self) -> OutcomeView {
        OutcomeView {
            commands: command_views(self.commands@),
            exit: self.exit,
            remarks: self.remarks@.map_values(|s: String| s@),
            load: match self.load {
                Some(path) => Some(path@),
                None => None,
            },
        }
    }
}

/// The outcome that asks nothing of the caller.
pub open spec fn nothing_to_do() -> OutcomeView {
    OutcomeView { commands: Seq::empty(), exit: false, remarks: Seq::empty(), load: None }
}

/// A line that waits for the file of a `load`.
#[derive(Debug, Clone, PartialEq, Eq)]
pub struct PendingLine {
    /// The words of the line.
    pub words: Vec<Vec<char>>,
    /// The line as it was entered.
    pub line: Vec<char>,
    /// The lines that `watch list` prints.
    pub watch_lines: Vec<Vec<char>>,
    /// The index of the word at which reading goes on.
    pub next: usize,
    /// The last failure so far.
    pub error: Option<Vec<char>>,
    /// What is to be printed after the line's echo.
    pub output: Vec<Vec<char>>,
    /// The path of the file.
    pub path: Vec<char>,
}

/// A waiting line with its lists and texts as sequences.
pub struct PendingView {
    pub words: Seq<Seq<char>>,
    pub line: Seq<char>,
    pub watch_lines: Seq<Seq<char>>,
    pub next: int,
    pub error: Option<Seq<char>>,
    pub output: Seq<Seq<char>>,
    pub path: Seq<char>,
}

impl View for PendingLine {
    type V = PendingView;

    open spec fn view(&self) -> PendingView {
        PendingView {
            words: texts(self.words@),
            line: self.line@,
            watch_lines: texts(self.watch_lines@),
            next: self.next as int,
            error: text_of(self.error),
            output: texts(self.output@),
            path: self.path@,
        }
    }
}

/// A key of the keyboard.
#[derive(Debug, Clone, Copy, PartialEq, Eq, Structural)]
pub enum Key {
    Char(char),
    Tab,
    BackTab,
    Esc,
    Backspace,
    Delete,
    Left,
    Right,
    Home,
    End,
    Enter,
    /// Any other key.
    Other,
}

/// The modifier keys that were held with a key.
#[derive(Debug, Clone, Copy, PartialEq, Eq, Structural)]
pub enum Modifiers {
    /// No modifier key.
    Plain,
    /// Control and nothing else.
    Control,
    /// Alt and nothing else.
    Alt,
    /// Any other combination.
    Other,
}

/// The console's view and input state.
pub struct App {
    /// The mirror of the active user's simulation.
    pub sim_state: SimState,
    /// The ship as it was last reported for the active user.
    pub ship: ShipState,
    /// The panels on the screen as it was last measured.
    pub ui_regions: UIRegions,
    /// The pointer.
    pub mouse: Mouse,
    /// The main view that is shown.
    pub view_mode: ViewMode,
    /// Where keys go.
    pub input_mode: InputMode,
    /// The command line.
    pub input: LineEditor,
    /// The log.
    pub log: Log,
    /// The number of rows by which the code view is scrolled.
    pub code_scroll: usize,
    /// The first address of the code view.
    pub code_offset: usize,
    /// The first address of the memory view.
    pub memory_scroll: usize,
    /// The breakpoint addresses.
    pub breakpoints: BreakpointSet,
    /// The watch panels.
    pub watch_addr: Vec<WatchEntry>,
    /// What waits to be carried out.
    pub actions: Vec<AppActions>,
    /// The line that waits for a file.
    pub pending: Option<PendingLine>,
}

/// The console's state with its lists and texts as sequences.
pub struct AppView {
    pub sim_state: SimStateView,
    pub ship: ShipState,
    pub ui_regions: UIRegions,
    pub mouse: MouseView,
    pub view_mode: ViewMode,
    pub input_mode: InputMode,
    pub input: Seq<char>,
    pub cursor: int,
    pub log: LogView,
    pub code_scroll: usize,
    pub code_offset: usize,
    pub memory_scroll: usize,
    pub breakpoints: Seq<u16>,
    pub watch_addr: Seq<WatchView>,
    pub actions: Seq<AppActions>,
    pub pending: Option<PendingView>,
}

impl View for App {
    type V = AppView;

    open spec fn view(&self) -> AppView {
        AppView {
            sim_state: self.sim_state@,
            ship: self.ship,
            ui_regions: self.ui_regions,
            mouse: self.mouse@,
            view_mode: self.view_mode,
            input_mode: self.input_mode,
            input: self.input.text(),
            cursor: self.input.position(),
            log: self.log@,
            code_scroll: self.code_scroll,
            code_offset: self.code_offset,
            memory_scroll: self.memory_scroll,
            breakpoints: self.breakpoints@,
            watch_addr: watch_views(self.watch_addr@),
            actions: self.actions@,
            pending: match self.pending {
                Some(p) => Some(p@),
                None => None,
            },
        }
    }
}

/// The number of rows of the code view.
pub const CODE_ROWS: usize = 0xc0;

/// The address at which the code view begins at first.
pub const CODE_START: usize = 0x40;

/// `value` held between 0 and `top`, or 0 where `top` is negative.
pub open spec fn held(value: int, top: int) -> int {
    if value < 0 || top < 0 {
        0
    } else if value > top {
        top
    } else {
        value
    }
}

/// The watch panels that a console begins with.
pub open spec fn first_watches() -> Seq<WatchView> {
    seq![
        WatchView { addr: 0x380, size: 0x8, label: Some("Ship"@) },
        WatchView { addr: 0x3c0, size: 0x8, label: Some("NAV"@) },
        WatchView { addr: 0x80, size: 0x20, label: None },
        WatchView { addr: 0x1000, size: 0x30, label: Some("Public Memory"@) },
    ]
}

impl AppView {
    /// The console after the wheel turned by `lines`. Nothing moves while the
    /// pointer has not been seen or is over the watch panels. Else the view
    /// that is shown moves: the log back by `lines`, the memory and code views
    /// forward by as much, each within its range.
    pub open spec fn scrolled(self, lines: int) -> AppView {
        match self.mouse.pos {
            None => self,
            Some(at) => if self.ui_regions.memory.holds(at) {
                self
            } else {
                match self.view_mode {
                    ViewMode::Log => AppView {
                        log: LogView {
                            position: held(self.log.position + lines, self.log.lines.len() - 1),
                            ..self.log
                        },
                        ..self
                    },
                    ViewMode::Memory => AppView {
                        memory_scroll: held(
                            self.memory_scroll - lines,
                            self.sim_state.memory.len() - 1 - self.ui_regions.memory.height,
                        ) as usize,
                        ..self
                    },
                    ViewMode::Code => AppView {
                        code_scroll: held(self.code_scroll - lines, CODE_ROWS as int) as usize,
                        ..self
                    },
                }
            },
        }
    }

    /// The console after the pointer did `input` at the cell `at`.
    pub open spec fn after_mouse(self, input: MouseInput, at: Position) -> AppView {
        match input {
            MouseInput::ScrollDown => self.scrolled(-1),
            MouseInput::ScrollUp => self.scrolled(1),
            _ => AppView { mouse: self.mouse.after(input, at), ..self },
        }
    }

    /// The console after `text` was put in at the cursor.
    pub open spec fn pasted(self, text: Seq<char>) -> AppView {
        AppView {
            input: self.input.take(self.cursor) + text + self.input.skip(self.cursor),
            cursor: self.cursor + text.len(),
            ..self
        }
    }
}

impl App {
    /// A console that mirrors `words` words of memory: halted, in the menu,
    /// showing the code view from its usual start, with the usual watch panels.
    pub fn new(words: usize) -> (app: App)
        ensures
            app@ == (AppView {
                sim_state: blank_mirror(words as nat),
                ship: ShipState { x_bits: 0, y_bits: 0, heading_bits: 0, color: 0 },
                ui_regions: regions_of(0, 0),
                mouse: unseen(),
                view_mode: ViewMode::Code,
                input_mode: InputMode::Menu,
                input: Seq::empty(),
                cursor: 0,
                log: empty_log(),
                code_scroll: 0,
                code_offset: CODE_START,
                memory_scroll: 0,
                breakpoints: Seq::empty(),
                watch_addr: first_watches(),
                actions: Seq::empty(),
                pending: None,
            }),
    {
        let mut watch_addr: Vec<WatchEntry> = Vec::new();
        watch_addr.push(
            WatchEntry { addr: 0x380, size: 0x8, label: Some(string_of(&chars_of("Ship"))) },
        );
        watch_addr.push(
            WatchEntry { addr: 0x3c0, size: 0x8, label: Some(string_of(&chars_of("NAV"))) },
        );
        watch_addr.push(WatchEntry { addr: 0x80, size: 0x20, label: None });
        watch_addr.push(
            WatchEntry {
                addr: 0x1000,
                size: 0x30,
                label: Some(string_of(&chars_of("Public Memory"))),
            },
        );
        assert(watch_views(watch_addr@) =~= first_watches());
        App {
            sim_state: SimState::new(words),
            ship: ShipState { x_bits: 0, y_bits: 0, heading_bits: 0, color: 0 },
            ui_regions: UIRegions::default(),
            mouse: Mouse::new(),
            view_mode: ViewMode::Code,
            input_mode: InputMode::Menu,
            input: LineEditor::new(),
            log: Log::new(),
            code_scroll: 0,
            code_offset: CODE_START,
            memory_scroll: 0,
            breakpoints: BreakpointSet::new(),
            watch_addr,
            actions: Vec::new(),
            pending: None,
        }
    }

    /// Measures the screen anew and divides it among the panels.
    pub fn resize(&mut self, width: u16, height: u16)
        ensures
            final(self)@ == (AppView { ui_regions: regions_of(width, height), ..old(self)@ }),
    {
        self.ui_regions = generate_regions(width, height);
    }

    /// Puts a character in at the cursor of the command line.
    pub fn input_new_char(&mut self, c: char)
        ensures
            final(self)@ == (AppView {
                input: old(self)@.input.insert(old(self)@.cursor, c),
                cursor: old(self)@.cursor + 1,
                ..old(self)@
            }),
    {
        self.input.insert(c);
    }

    /// Removes the character at the cursor of the command line.
    pub fn input_delete_char(&mut self)
        ensures
            final(self)@ == (AppView {
                input: if old(self)@.cursor < old(self)@.input.len() {
                    old(self)@.input.remove(old(self)@.cursor)
                } else {
                    old(self)@.input
                },
                ..old(self)@
            }),
    {
        self.input.delete();
    }

    /// Removes what stands left of the cursor of the command line: a
    /// character, or with `alt` the blanks before the cursor and the word
    /// before them.
    pub fn input_backspace_char(&mut self, alt: bool)
        ensures
            final(self)@ == old(self)@.backspaced(alt),
    {
        self.input.backspace(alt);
    }

    /// Moves the cursor of the command line one character to the left.
    pub fn input_cursor_left(&mut self)
        ensures
            final(self)@ == (AppView {
                cursor: if old(self)@.cursor > 0 {
                    old(self)@.cursor - 1
                } else {
                    0
                },
                ..old(self)@
            }),
    {
        self.input.left();
    }

    /// Moves the cursor of the command line one character to the right.
    pub fn input_cursor_right(&mut self)
        ensures
            final(self)@ == (AppView {
                cursor: if old(self)@.cursor < old(self)@.input.len() {
                    old(self)@.cursor + 1
                } else {
                    old(self)@.cursor
                },
                ..old(self)@
            }),
    {
        self.input.right();
    }

    /// Moves the cursor of the command line to its start.
    pub fn input_home(&mut self)
        ensures
            final(self)@ == (AppView { cursor: 0, ..old(self)@ }),
    {
        self.input.home();
    }

    /// Moves the cursor of the command line to its end.
    pub fn input_end(&mut self)
        ensures
            final(self)@ == (AppView { cursor: old(self)@.input.len() as int, ..old(self)@ }),
    {
        self.input.end();
    }

    /// Empties the command line.
    pub fn clear_input(&mut self)
        ensures
            final(self)@ == (AppView { input: Seq::empty(), cursor: 0, ..old(self)@ }),
    {
        self.input.clear();
    }

    /// Puts a text in at the cursor of the command line, as if typed.
    pub fn paste(&mut self, text: &str)
        ensures
            final(self)@ == old(self)@.pasted(text@),
    {
        let chars = chars_of(text);
        let mut i: usize = 0;
        let at = self.input.cursor();
        assert(self@.input =~= old(self)@.pasted(chars@.take(0)).input);
        while i < chars.len()
            invariant
                i <= chars.len(),
                0 <= old(self)@.cursor <= old(self)@.input.len(),
                self@ == old(self)@.pasted(chars@.take(i as int)),
            decreases chars.len() - i,
        {
            self.input.insert(chars[i]);
            assert(self@.input =~= old(self)@.pasted(chars@.take(i + 1)).input);
            i += 1;
        }
        assert(chars@.take(i as int) =~= chars@);
    }

    /// Turns the wheel by `lines`: towards the operator where negative.
    pub fn input_scroll(&mut self, lines: i32)
        ensures
            final(self)@ == old(self)@.scrolled(lines as int),
    {
        let at = match self.mouse.pos {
            Some(at) => at,
            None => {
                return ;
            },
        };
        if self.ui_regions.memory.contains(at) {
            return ;
        }
        match self.view_mode {
            ViewMode::Log => {
                let top: i128 = self.log.lines.len() as i128 - 1;
                self.log.position = hold(self.log.position as i128 + lines as i128, top);
            },
            ViewMode::Memory => {
                let top: i128 = self.sim_state.memory.len() as i128 - 1
                    - self.ui_regions.memory.height as i128;
                self.memory_scroll = hold(self.memory_scroll as i128 - lines as i128, top);
            },
            ViewMode::Code => {
                self.code_scroll = hold(self.code_scroll as i128 - lines as i128, CODE_ROWS as i128);
            },
        }
    }

    /// Records a click at a cell.
    pub fn input_click(&mut self, x: u16, y: u16)
        ensures
            final(self)@ == (AppView {
                mouse: MouseView {
                    clicks: old(self)@.mouse.clicks.push(Position { x, y }),
                    ..old(self)@.mouse
                },
                ..old(self)@
            }),
    {
        self.mouse.clicks.push(Position { x, y });
    }

    /// Records a drop from one cell to another.
    pub fn input_drop(&mut self, x1: u16, y1: u16, x2: u16, y2: u16)
        ensures
            final(self)@ == (AppView {
                mouse: MouseView {
                    drops: old(self)@.mouse.drops.push(
                        (Position { x: x1, y: y1 }, Position { x: x2, y: y2 }),
                    ),
                    ..old(self)@.mouse
                },
                ..old(self)@
            }),
    {
        self.mouse.drops.push((Position { x: x1, y: y1 }, Position { x: x2, y: y2 }));
    }

    /// Takes in what the pointer did in column `column` and row `row`.
    pub fn handle_mouse(&mut self, input: MouseInput, column: u16, row: u16)
        ensures
            final(self)@ == old(self)@.after_mouse(input, Position { x: column, y: row }),
    {
        match input {
            MouseInput::ScrollDown => self.input_scroll(-1),
            MouseInput::ScrollUp => self.input_scroll(1),
            _ => self.mouse.handle(input, Position { x: column, y: row }),
        }
    }
}

/// `value` held between 0 and `top`, or 0 where `top` is negative.
fn hold(value: i128, top: i128) -> (r: usize)
    requires
        top <= usize::MAX,
    ensures
        r == held(value as int, top as int),
{
    if value < 0 || top < 0 {
        0
    } else if value > top {
        top as usize
    } else {
        value as usize
    }
}

impl AppView {
    /// The console after a backspace in the command line.
    pub open spec fn backspaced(self, alt: bool) -> AppView {
        let to = if alt {
            word_start(self.input, self.cursor)
        } else if self.cursor > 0 {
            self.cursor - 1
        } else {
            0
        };
        AppView { input: self.input.take(to) + self.input.skip(self.cursor), cursor: to, ..self }
    }
}

} // verus!
