//! The console's command language.
//!
//! A line is split into words and read from left to right. A word that names a
//! sub-command is carried out at once, with the words that belong to it; any
//! other word is passed over. What a line does is collected in a `LineRun`: the
//! commands for the controller in the order in which they are to be sent, the
//! changes to the console's own state, the last failure, and the lines to print.
//! A word that should be a number and is none is a failure of the line; what
//! was sent before it stays sent. A sub-command of `watch` that is not known is
//! kept as a remark for the caller's own record. Reading stops early at a
//! `load`, whose file the caller has to fetch.

use vstd::prelude::*;
use crate::app::ViewMode;
use crate::breakpoints::{toggled, BreakpointSet};
use crate::number::{
    digit_of, parse_decimal_usize, parse_hex_u16, parse_hex_u64, parse_number, to_digit,
};
use crate::protocol::{command_views, SimCommand, SimCommandView};
use crate::text::{append, chars_of, string_of, takes_more_bytes, texts, utf8_size, word_is};

verus! {

/// The state of a line that is being carried out.
pub struct LineRun {
    /// The view that is shown; `goto` goes by it.
    pub view_mode: ViewMode,
    /// The user that the console mirrors.
    pub active_user: u64,
    /// The console's copy of the tracing flag.
    pub debug_mode: bool,
    /// The console's copy of the running flag.
    pub running: bool,
    /// The first address of the code view.
    pub code_offset: usize,
    /// The first address of the memory view.
    pub memory_scroll: usize,
    /// The breakpoint addresses.
    pub breakpoints: BreakpointSet,
    /// The commands to send, oldest first.
    pub commands: Vec<SimCommand>,
    /// Whether the line asks to leave the console.
    pub exit: bool,
    /// The last failure of the line.
    pub error: Option<Vec<char>>,
    /// Lines to print at once.
    pub notices: Vec<Vec<char>>,
    /// Lines to print after the line's echo, unless it failed.
    pub output: Vec<Vec<char>>,
    /// What was passed over, for the caller's own record.
    pub remarks: Vec<Vec<char>>,
    /// The path of the file that the line waits for.
    pub load: Option<Vec<char>>,
    /// The index of the next word to read.
    pub next: usize,
}

/// A `LineRun` with its lists and texts as sequences.
pub struct LineRunView {
    pub view_mode: ViewMode,
    pub active_user: u64,
    pub debug_mode: bool,
    pub running: bool,
    pub code_offset: usize,
    pub memory_scroll: usize,
    pub breakpoints: Seq<u16>,
    pub commands: Seq<SimCommandView>,
    pub exit: bool,
    pub error: Option<Seq<char>>,
    pub notices: Seq<Seq<char>>,
    pub output: Seq<Seq<char>>,
    pub remarks: Seq<Seq<char>>,
    pub load: Option<Seq<char>>,
    pub next: int,
}

/// The text of an optional word.
pub open spec fn text_of(word: Option<Vec<char>>) -> Option<Seq<char>> {
    match word {
        Some(w) => Some(w@),
        None => None,
    }
}

impl View for LineRun {
    type V = LineRunView;

    open spec fn view(&self) -> LineRunView {
        LineRunView {
            view_mode: self.view_mode,
            active_user: self.active_user,
            debug_mode: self.debug_mode,
            running: self.running,
            code_offset: self.code_offset,
            memory_scroll: self.memory_scroll,
            breakpoints: self.breakpoints@,
            commands: command_views(self.commands@),
            exit: self.exit,
            error: text_of(self.error),
            notices: texts(self.notices@),
            output: texts(self.output@),
            remarks: texts(self.remarks@),
            load: text_of(self.load),
            next: self.next as int,
        }
    }
}

/// The word that stands next, if the line has one more.
pub open spec fn peeked(c: LineRunView, words: Seq<Seq<char>>) -> Option<Seq<char>> {
    if 0 <= c.next < words.len() {
        Some(words[c.next])
    } else {
        None
    }
}

/// The run after `command` was added to what is sent.
pub open spec fn sent(c: LineRunView, command: SimCommandView) -> LineRunView {
    LineRunView { commands: c.commands.push(command), ..c }
}

/// The run after the word that stands next was taken.
pub open spec fn taken(c: LineRunView) -> LineRunView {
    LineRunView { next: c.next + 1, ..c }
}

/// The run after a failure with the given message.
pub open spec fn failed(c: LineRunView, message: Seq<char>) -> LineRunView {
    LineRunView { error: Some(message), ..c }
}

/// The run after a remark on what was passed over.
pub open spec fn remarked(c: LineRunView, remark: Seq<char>) -> LineRunView {
    LineRunView { remarks: c.remarks.push(remark), ..c }
}

/// The register that a word names: `c0` to `c7` are 0 to 7, `r0` to `r7` are 8
/// to 15, and `ri` is another name of `r7`.
pub open spec fn register_index(word: Seq<char>) -> Option<u16> {
    if word.len() != 2 {
        None
    } else if word[0] == 'c' && 0x30 <= word[1] as u32 <= 0x37 {
        Some((word[1] as u32 - 0x30) as u16)
    } else if word[0] == 'r' && 0x30 <= word[1] as u32 <= 0x37 {
        Some((word[1] as u32 - 0x30 + 8) as u16)
    } else if word[0] == 'r' && word[1] == 'i' {
        Some(15u16)
    } else {
        None
    }
}

/// The address that the first word after `poke` names: four times a register's
/// index, or a hexadecimal number.
pub open spec fn poke_address(word: Seq<char>) -> Option<u16> {
    match register_index(word) {
        Some(r) => Some((r * 4) as u16),
        None => match parse_number(word, 16, 0xffff) {
            Some(a) => Some(a as u16),
            None => None,
        },
    }
}

/// The address `steps` words after `addr`, going round at the end of the
/// 16-bit address space.
pub open spec fn address_after(addr: u16, steps: int) -> u16 {
    ((addr + steps) % 0x10000) as u16
}

/// The words that a long run of hexadecimal digits spells: its digits in groups
/// of four from `k` on, a shorter last group standing for itself; characters
/// that are no digits are passed over. `value` and `count` hold the digits of
/// the group that has been begun.
pub open spec fn digit_groups(s: Seq<char>, k: int, value: int, count: int) -> Seq<u16>
    decreases s.len() - k,
{
    if k < 0 || k >= s.len() {
        if count > 0 {
            seq![value as u16]
        } else {
            Seq::empty()
        }
    } else {
        match digit_of(s[k], 16) {
            Some(d) => if count + 1 >= 4 {
                seq![(value * 16 + d) as u16] + digit_groups(s, k + 1, 0, 0)
            } else {
                digit_groups(s, k + 1, value * 16 + d, count + 1)
            },
            None => digit_groups(s, k + 1, value, count),
        }
    }
}

/// Writes of consecutive words from `from` on.
pub open spec fn writes(from: u16, values: Seq<u16>) -> Seq<SimCommandView> {
    Seq::new(values.len(), |k: int| SimCommandView::Write(address_after(from, k), values[k]))
}

/// The run after the values of a `poke` were read, from the word that stands
/// next. A word of more than four bytes is a run of digits in groups of four; a
/// shorter one is one hexadecimal number; the first word that is neither ends
/// the values, is a failure of the line and is left standing.
pub open spec fn poked(c: LineRunView, words: Seq<Seq<char>>, to: u16) -> LineRunView
    decreases words.len() - c.next,
{
    if c.next < 0 || c.next >= words.len() {
        c
    } else {
        let word = words[c.next];
        if utf8_size(word) > 4 {
            let values = digit_groups(word, 0, 0, 0);
            poked(
                taken(LineRunView { commands: c.commands + writes(to, values), ..c }),
                words,
                address_after(to, values.len() as int),
            )
        } else {
            match parse_number(word, 16, 0xffff) {
                Some(v) => poked(
                    taken(sent(c, SimCommandView::Write(to, v as u16))),
                    words,
                    address_after(to, 1),
                ),
                None => failed(c, message("Invalid value. Expected a number but got: ", word)),
            }
        }
    }
}

/// `prefix` followed by `word`.
pub open spec fn message(prefix: &str, word: Seq<char>) -> Seq<char> {
    prefix@ + word
}

/// The run after `user`: the next word is taken, and names the user in
/// hexadecimal or is reported.
pub open spec fn on_user(c: LineRunView, words: Seq<Seq<char>>) -> LineRunView {
    match peeked(c, words) {
        None => c,
        Some(word) => match parse_number(word, 16, u64::MAX as nat) {
            Some(user) => taken(
                sent(
                    LineRunView { active_user: user as u64, ..c },
                    SimCommandView::SetUser(user as u64),
                ),
            ),
            None => taken(failed(c, message("Invalid user. Expected a number but got: ", word))),
        },
    }
}

/// The run after `speed`: the next word is the decimal number of steps per wake
/// and is taken, or it is reported and left standing.
pub open spec fn on_speed(c: LineRunView, words: Seq<Seq<char>>) -> LineRunView {
    match peeked(c, words) {
        None => failed(c, "Invalid speed. Expected a number."@),
        Some(word) => match parse_number(word, 10, usize::MAX as nat) {
            Some(rate) => taken(sent(c, SimCommandView::TickRate(rate as usize))),
            None => failed(c, message("Invalid speed. Expected a number but got: ", word)),
        },
    }
}

/// The run after `goto`: in the code and memory views the next word is the
/// hexadecimal address to show first and is taken, or it is reported and left
/// standing; in the log view nothing happens.
pub open spec fn on_goto(c: LineRunView, words: Seq<Seq<char>>) -> LineRunView {
    match peeked(c, words) {
        None => c,
        Some(word) => match c.view_mode {
            ViewMode::Log => c,
            ViewMode::Code => match parse_number(word, 16, 0xffff) {
                Some(addr) => taken(LineRunView { code_offset: addr as usize, ..c }),
                None => failed(c, message("Invalid address. Expected a number but got: ", word)),
            },
            ViewMode::Memory => match parse_number(word, 16, 0xffff) {
                Some(addr) => taken(LineRunView { memory_scroll: addr as usize, ..c }),
                None => failed(c, message("Invalid address. Expected a number but got: ", word)),
            },
        },
    }
}

/// The run after `load`: the next word is taken as the path of the file to
/// wait for; without one the line has failed.
pub open spec fn on_load(c: LineRunView, words: Seq<Seq<char>>) -> LineRunView {
    match peeked(c, words) {
        None => failed(c, "No file path provided."@),
        Some(path) => taken(LineRunView { load: Some(path), ..c }),
    }
}

/// The run after `bp`: the next word, where it is a hexadecimal address, is
/// taken and toggled, and the whole list is sent; any other word is a failure
/// of the line and is left standing.
pub open spec fn on_breakpoint(c: LineRunView, words: Seq<Seq<char>>) -> LineRunView {
    match peeked(c, words) {
        None => c,
        Some(word) => match parse_number(word, 16, 0xffff) {
            Some(addr) => {
                let list = toggled(c.breakpoints, addr as u16);
                taken(sent(LineRunView { breakpoints: list, ..c }, SimCommandView::Breakpoints(list)))
            },
            None => failed(c, message("Invalid address. Expected a number but got: ", word)),
        },
    }
}

/// The run after `watch`: where the next word asks for the list, the watch
/// entries are added to the output; where it asks to add or to remove, nothing
/// happens; any other word gives a remark. The word is left standing.
pub open spec fn on_watch(
    c: LineRunView,
    words: Seq<Seq<char>>,
    watch_lines: Seq<Seq<char>>,
) -> LineRunView {
    match peeked(c, words) {
        None => c,
        Some(word) => if word == "l"@ || word == "list"@ {
            LineRunView { output: c.output + watch_lines, ..c }
        } else if word == "a"@ || word == "add"@ || word == "r"@ || word == "rem"@ || word
            == "remove"@ {
            c
        } else {
            remarked(
                c,
                message("Invalid watch command. Expected 'add' or 'remove' but got: ", word),
            )
        },
    }
}

/// The run after `peek`: the next word, where it is a hexadecimal address, is
/// taken and the word at that address asked for; any other word is a failure
/// of the line and is left standing.
pub open spec fn on_peek(c: LineRunView, words: Seq<Seq<char>>) -> LineRunView {
    match peeked(c, words) {
        None => c,
        Some(word) => match parse_number(word, 16, 0xffff) {
            Some(addr) => taken(sent(c, SimCommandView::Read(addr as u16))),
            None => failed(c, message("Invalid address. Expected a number but got: ", word)),
        },
    }
}

/// The run after `poke`: the next word, where it names an address, is taken,
/// and the values after it are written from that address on; any other word
/// is a failure of the line and is left standing.
pub open spec fn on_poke(c: LineRunView, words: Seq<Seq<char>>) -> LineRunView {
    match peeked(c, words) {
        None => c,
        Some(word) => match poke_address(word) {
            Some(addr) => poked(taken(c), words, addr),
            None => failed(c, message("Invalid address. Expected a number but got: ", word)),
        },
    }
}

/// The run after the word that stands next was read as a sub-command, with
/// the words that belong to it. `line` is the whole line, which `write` and
/// `code` hand on as it is.
pub open spec fn stepped(
    c: LineRunView,
    words: Seq<Seq<char>>,
    line: Seq<char>,
    watch_lines: Seq<Seq<char>>,
) -> LineRunView
    recommends
        0 <= c.next < words.len(),
{
    let word = words[c.next];
    let c = taken(c);
    if word == "exit"@ || word == "quit"@ {
        LineRunView { exit: true, ..c }
    } else if word == "user"@ {
        on_user(c, words)
    } else if word == "debug"@ {
        sent(
            LineRunView { debug_mode: !c.debug_mode, ..c },
            SimCommandView::Debug(!c.debug_mode),
        )
    } else if word == "summon"@ {
        sent(c, SimCommandView::Summon)
    } else if word == "r"@ || word == "run"@ || word == "starr"@ || word == "resume"@ {
        sent(c, SimCommandView::Run)
    } else if word == "speed"@ {
        on_speed(c, words)
    } else if word == "g"@ || word == "go"@ || word == "goto"@ {
        on_goto(c, words)
    } else if word == "load"@ {
        on_load(c, words)
    } else if word == "reset"@ || word == "clear"@ {
        sent(c, SimCommandView::Reset)
    } else if word == "restart"@ {
        sent(c, SimCommandView::Restart)
    } else if word == "write"@ {
        sent(c, SimCommandView::WriteCommand(line))
    } else if word == "code"@ {
        sent(c, SimCommandView::CodeCommand(line))
    } else if word == "bp"@ || word == "breakpoint"@ {
        on_breakpoint(c, words)
    } else if word == "watch"@ {
        on_watch(c, words, watch_lines)
    } else if word == "peek"@ {
        on_peek(c, words)
    } else if word == "poke"@ {
        on_poke(c, words)
    } else if word == "s"@ || word == "step"@ || word == "tick"@ {
        sent(LineRunView { running: false, debug_mode: true, ..c }, SimCommandView::Step)
    } else {
        c
    }
}

/// A word that should be an address and is no hexadecimal number is a failure
/// of the line after `bp`, `peek` and `poke` alike: the failure names the
/// word, nothing is sent for it, and the word is left standing.
pub proof fn lemma_bad_address_fails(c: LineRunView, words: Seq<Seq<char>>)
    requires
        0 <= c.next < words.len(),
        parse_number(words[c.next], 16, 0xffff) is None,
        register_index(words[c.next]) is None,
    ensures
        on_breakpoint(c, words) == on_peek(c, words),
        on_poke(c, words) == on_peek(c, words),
        on_peek(c, words) == (LineRunView {
            error: Some(message("Invalid address. Expected a number but got: ", words[c.next])),
            ..c
        }),
{
}

/// Reading the values of a `poke` goes neither back in the line nor beyond its end.
pub proof fn lemma_poked_advances(c: LineRunView, words: Seq<Seq<char>>, to: u16)
    ensures
        poked(c, words, to).next >= c.next,
        c.next <= words.len() ==> poked(c, words, to).next <= words.len(),
        poked(c, words, to).load == c.load,
    decreases words.len() - c.next,
{
    if 0 <= c.next < words.len() {
        let word = words[c.next];
        if utf8_size(word) > 4 {
            let values = digit_groups(word, 0, 0, 0);
            lemma_poked_advances(
                taken(LineRunView { commands: c.commands + writes(to, values), ..c }),
                words,
                address_after(to, values.len() as int),
            );
        } else {
            match parse_number(word, 16, 0xffff) {
                Some(v) => {
                    lemma_poked_advances(
                        taken(sent(c, SimCommandView::Write(to, v as u16))),
                        words,
                        address_after(to, 1),
                    );
                },
                None => {},
            }
        }
    }
}

/// Every sub-command takes at least its own word, and none beyond the line's end.
pub proof fn lemma_stepped_advances(
    c: LineRunView,
    words: Seq<Seq<char>>,
    line: Seq<char>,
    watch_lines: Seq<Seq<char>>,
)
    requires
        0 <= c.next < words.len(),
    ensures
        c.next < stepped(c, words, line, watch_lines).next <= words.len(),
{
    let after = taken(c);
    match peeked(after, words) {
        Some(word) => {
            match poke_address(word) {
                Some(addr) => {
                    lemma_poked_advances(taken(after), words, addr);
                },
                None => {},
            }
        },
        None => {},
    }
}

/// The run after the rest of the line was read: sub-command by sub-command,
/// up to the end of the line or the first `load` that names a file.
pub open spec fn finished(
    c: LineRunView,
    words: Seq<Seq<char>>,
    line: Seq<char>,
    watch_lines: Seq<Seq<char>>,
) -> LineRunView
    decreases words.len() - c.next,
{
    if c.next < 0 || c.next >= words.len() || c.load is Some {
        c
    } else {
        proof {
            lemma_stepped_advances(c, words, line, watch_lines);
        }
        finished(stepped(c, words, line, watch_lines), words, line, watch_lines)
    }
}

/// `prefix` followed by `word`.
pub fn concat(prefix: &str, word: &Vec<char>) -> (text: Vec<char>)
    ensures
        text@ == message(prefix, word@),
{
    let mut text = chars_of(prefix);
    append(&mut text, word);
    text
}

/// A copy of a text.
pub fn copy_of(word: &Vec<char>) -> (copy: Vec<char>)
    ensures
        copy@ == word@,
{
    let mut copy: Vec<char> = Vec::new();
    append(&mut copy, word);
    assert(copy@ =~= word@);
    copy
}

/// Adds copies of `lines` to `out`.
fn append_lines(out: &mut Vec<Vec<char>>, lines: &Vec<Vec<char>>)
    ensures
        texts(final(out)@) == texts(old(out)@) + texts(lines@),
{
    let mut i: usize = 0;
    assert(texts(out@) =~= texts(old(out)@) + texts(lines@).take(0));
    while i < lines.len()
        invariant
            i <= lines.len(),
            texts(out@) == texts(old(out)@) + texts(lines@).take(i as int),
        decreases lines.len() - i,
    {
        let ghost before = texts(out@);
        out.push(copy_of(&lines[i]));
        assert(texts(out@) =~= before.push(lines@[i as int]@));
        assert(texts(out@) =~= texts(old(out)@) + texts(lines@).take(i + 1));
        i += 1;
    }
    assert(texts(lines@).take(i as int) =~= texts(lines@));
}

/// The register that a word names.
fn register(word: &Vec<char>) -> (r: Option<u16>)
    ensures
        r == register_index(word@),
{
    if word.len() != 2 {
        return None;
    }
    let bank = word[0];
    let n: u32 = word[1] as u32;
    if bank == 'c' && 0x30 <= n && n <= 0x37 {
        Some((n - 0x30) as u16)
    } else if bank == 'r' && 0x30 <= n && n <= 0x37 {
        Some((n - 0x30 + 8) as u16)
    } else if bank == 'r' && word[1] == 'i' {
        Some(15)
    } else {
        None
    }
}

/// The address that the first word after `poke` names.
fn address_to_poke(word: &Vec<char>) -> (addr: Option<u16>)
    ensures
        addr == poke_address(word@),
{
    match register(word) {
        Some(r) => Some(r * 4),
        None => parse_hex_u16(word),
    }
}

/// The address after `addr`.
fn next_address(addr: u16) -> (next: u16)
    ensures
        next == address_after(addr, 1),
        forall|k: int| k >= 0 ==> address_after(next, k) == #[trigger] address_after(addr, k + 1),
{
    if addr == 0xffff {
        0
    } else {
        addr + 1
    }
}

/// The words that a long run of hexadecimal digits spells.
fn groups_of(word: &Vec<char>) -> (values: Vec<u16>)
    ensures
        values@ == digit_groups(word@, 0, 0, 0),
{
    let mut values: Vec<u16> = Vec::new();
    let mut value: u16 = 0;
    let mut count: u8 = 0;
    let mut k: usize = 0;
    while k < word.len()
        invariant
            k <= word.len(),
            count < 4,
            count == 0 ==> value == 0,
            count == 1 ==> value < 0x10,
            count == 2 ==> value < 0x100,
            count == 3 ==> value < 0x1000,
            values@ + digit_groups(word@, k as int, value as int, count as int) == digit_groups(
                word@,
                0,
                0,
                0,
            ),
        decreases word.len() - k,
    {
        let ghost before = values@;
        match to_digit(word[k], 16) {
            Some(d) => {
                value = value * 16 + d as u16;
                count += 1;
                if count >= 4 {
                    values.push(value);
                    value = 0;
                    count = 0;
                    assert(values@ + digit_groups(word@, k + 1, 0, 0) =~= before + (seq![
                        values@.last(),
                    ] + digit_groups(word@, k + 1, 0, 0)));
                }
            },
            None => {},
        }
        k += 1;
    }
    if count > 0 {
        let ghost before = values@;
        values.push(value);
        assert(values@ =~= before + seq![value]);
    } else {
        assert(values@ =~= values@ + Seq::<u16>::empty());
    }
    values
}

impl LineRun {
    /// Adds a command to what is sent.
    pub fn send(&mut self, command: SimCommand)
        ensures
            final(self)@ == sent(old(self)@, command@),
    {
        self.commands.push(command);
        assert(command_views(self.commands@) =~= command_views(old(self).commands@).push(command@));
    }

    /// Records a failure.
    pub fn fail(&mut self, message: Vec<char>)
        ensures
            final(self)@ == failed(old(self)@, message@),
    {
        self.error = Some(message);
    }

    /// Keeps a remark on what was passed over.
    pub fn remark(&mut self, remark: Vec<char>)
        ensures
            final(self)@ == remarked(old(self)@, remark@),
    {
        self.remarks.push(remark);
        assert(texts(self.remarks@) =~= texts(old(self).remarks@).push(remark@));
    }

    /// Takes the word that stands next.
    fn take(&mut self)
        requires
            old(self).next < usize::MAX,
        ensures
            final(self)@ == taken(old(self)@),
    {
        self.next = self.next + 1;
    }

    /// Adds writes of consecutive words from `from` on to what is sent.
    fn send_writes(&mut self, from: u16, values: &Vec<u16>) -> (end: u16)
        ensures
            final(self)@ == (LineRunView {
                commands: old(self)@.commands + writes(from, values@),
                ..old(self)@
            }),
            end == address_after(from, values@.len() as int),
    {
        let mut at: u16 = from;
        let mut k: usize = 0;
        assert(self@.commands =~= old(self)@.commands + writes(from, values@).take(0));
        while k < values.len()
            invariant
                k <= values.len(),
                at == address_after(from, k as int),
                self@ == (LineRunView {
                    commands: old(self)@.commands + writes(from, values@).take(k as int),
                    ..old(self)@
                }),
            decreases values.len() - k,
        {
            let ghost before = self@.commands;
            self.send(SimCommand::Write(at, values[k]));
            assert(self@.commands =~= old(self)@.commands + writes(from, values@).take(k + 1));
            assert(address_after(address_after(from, k as int), 1) == address_after(from, k + 1));
            at = next_address(at);
            k += 1;
        }
        assert(writes(from, values@).take(k as int) =~= writes(from, values@));
        at
    }

    /// Carries out `user`.
    fn user(&mut self, words: &Vec<Vec<char>>)
        ensures
            final(self)@ == on_user(old(self)@, texts(words@)),
    {
        if self.next < words.len() {
            let word = &words[self.next];
            assert(texts(words@)[self.next as int] == word@);
            match parse_hex_u64(word) {
                Some(user) => {
                    self.active_user = user;
                    self.send(SimCommand::SetUser(user));
                },
                None => {
                    self.fail(concat("Invalid user. Expected a number but got: ", word));
                },
            }
            self.take();
        }
    }

    /// Carries out `speed`.
    fn speed(&mut self, words: &Vec<Vec<char>>)
        ensures
            final(self)@ == on_speed(old(self)@, texts(words@)),
    {
        if self.next < words.len() {
            let word = &words[self.next];
            assert(texts(words@)[self.next as int] == word@);
            match parse_decimal_usize(word) {
                Some(rate) => {
                    self.send(SimCommand::TickRate(rate));
                    self.take();
                },
                None => {
                    self.fail(concat("Invalid speed. Expected a number but got: ", word));
                },
            }
        } else {
            self.fail(chars_of("Invalid speed. Expected a number."));
        }
    }

    /// Carries out `goto`.
    fn goto(&mut self, words: &Vec<Vec<char>>)
        ensures
            final(self)@ == on_goto(old(self)@, texts(words@)),
    {
        if self.next < words.len() {
            let word = &words[self.next];
            assert(texts(words@)[self.next as int] == word@);
            match self.view_mode {
                ViewMode::Log => {},
                ViewMode::Code => match parse_hex_u16(word) {
                    Some(addr) => {
                        self.code_offset = addr as usize;
                        self.take();
                    },
                    None => {
                        self.fail(concat("Invalid address. Expected a number but got: ", word));
                    },
                },
                ViewMode::Memory => match parse_hex_u16(word) {
                    Some(addr) => {
                        self.memory_scroll = addr as usize;
                        self.take();
                    },
                    None => {
                        self.fail(concat("Invalid address. Expected a number but got: ", word));
                    },
                },
            }
        }
    }

    /// Carries out `load` as far as the file's path.
    fn load(&mut self, words: &Vec<Vec<char>>)
        ensures
            final(self)@ == on_load(old(self)@, texts(words@)),
    {
        if self.next < words.len() {
            let word = &words[self.next];
            assert(texts(words@)[self.next as int] == word@);
            self.load = Some(copy_of(word));
            self.take();
        } else {
            self.fail(chars_of("No file path provided."));
        }
    }

    /// Carries out `bp`.
    fn breakpoint(&mut self, words: &Vec<Vec<char>>)
        ensures
            final(self)@ == on_breakpoint(old(self)@, texts(words@)),
    {
        if self.next < words.len() {
            let word = &words[self.next];
            assert(texts(words@)[self.next as int] == word@);
            match parse_hex_u16(word) {
                Some(addr) => {
                    self.breakpoints.toggle(addr);
                    let list = self.breakpoints.to_vec();
                    self.send(SimCommand::Breakpoints(list));
                    self.take();
                },
                None => {
                    self.fail(concat("Invalid address. Expected a number but got: ", word));
                },
            }
        }
    }

    /// Carries out `watch`.
    fn watch(&mut self, words: &Vec<Vec<char>>, watch_lines: &Vec<Vec<char>>)
        ensures
            final(self)@ == on_watch(old(self)@, texts(words@), texts(watch_lines@)),
    {
        if self.next < words.len() {
            let word = &words[self.next];
            assert(texts(words@)[self.next as int] == word@);
            if word_is(word, "l") || word_is(word, "list") {
                append_lines(&mut self.output, watch_lines);
            } else if word_is(word, "a") || word_is(word, "add") || word_is(word, "r") || word_is(
                word,
                "rem",
            ) || word_is(word, "remove") {
            } else {
                self.remark(
                    concat("Invalid watch command. Expected 'add' or 'remove' but got: ", word),
                );
            }
        }
    }

    /// Carries out `peek`.
    fn peek(&mut self, words: &Vec<Vec<char>>)
        ensures
            final(self)@ == on_peek(old(self)@, texts(words@)),
    {
        if self.next < words.len() {
            let word = &words[self.next];
            assert(texts(words@)[self.next as int] == word@);
            match parse_hex_u16(word) {
                Some(addr) => {
                    self.send(SimCommand::Read(addr));
                    self.take();
                },
                None => {
                    self.fail(concat("Invalid address. Expected a number but got: ", word));
                },
            }
        }
    }

    /// Carries out `poke`.
    fn poke_words(&mut self, words: &Vec<Vec<char>>)
        ensures
            final(self)@ == on_poke(old(self)@, texts(words@)),
    {
        if self.next < words.len() {
            let word = &words[self.next];
            assert(texts(words@)[self.next as int] == word@);
            match address_to_poke(word) {
                Some(addr) => {
                    self.take();
                    self.poke(words, addr);
                },
                None => {
                    self.fail(concat("Invalid address. Expected a number but got: ", word));
                },
            }
        }
    }

    /// Reads the word that stands next as a sub-command and carries it out.
    fn step(&mut self, words: &Vec<Vec<char>>, line: &Vec<char>, watch_lines: &Vec<Vec<char>>)
        requires
            old(self).next < words.len(),
        ensures
            final(self)@ == stepped(old(self)@, texts(words@), line@, texts(watch_lines@)),
    {
        let word = &words[self.next];
        assert(texts(words@)[self.next as int] == word@);
        self.take();
        if word_is(word, "exit") || word_is(word, "quit") {
            self.exit = true;
        } else if word_is(word, "user") {
            self.user(words);
        } else if word_is(word, "debug") {
            self.debug_mode = !self.debug_mode;
            self.send(SimCommand::Debug(self.debug_mode));
        } else if word_is(word, "summon") {
            self.send(SimCommand::Summon);
        } else if word_is(word, "r") || word_is(word, "run") || word_is(word, "starr") || word_is(
            word,
            "resume",
        ) {
            self.send(SimCommand::Run);
        } else if word_is(word, "speed") {
            self.speed(words);
        } else if word_is(word, "g") || word_is(word, "go") || word_is(word, "goto") {
            self.goto(words);
        } else if word_is(word, "load") {
            self.load(words);
        } else if word_is(word, "reset") || word_is(word, "clear") {
            self.send(SimCommand::Reset);
        } else if word_is(word, "restart") {
            self.send(SimCommand::Restart);
        } else if word_is(word, "write") {
            self.send(SimCommand::WriteCommand(string_of(line)));
        } else if word_is(word, "code") {
            self.send(SimCommand::CodeCommand(string_of(line)));
        } else if word_is(word, "bp") || word_is(word, "breakpoint") {
            self.breakpoint(words);
        } else if word_is(word, "watch") {
            self.watch(words, watch_lines);
        } else if word_is(word, "peek") {
            self.peek(words);
        } else if word_is(word, "poke") {
            self.poke_words(words);
        } else if word_is(word, "s") || word_is(word, "step") || word_is(word, "tick") {
            self.running = false;
            self.debug_mode = true;
            self.send(SimCommand::Step);
        }
    }

    /// Reads the rest of the line, up to its end or to the first `load` that
    /// names a file.
    pub fn interpret(
        &mut self,
        words: &Vec<Vec<char>>,
        line: &Vec<char>,
        watch_lines: &Vec<Vec<char>>,
    )
        ensures
            final(self)@ == finished(old(self)@, texts(words@), line@, texts(watch_lines@)),
    {
        while self.next < words.len() && self.load.is_none()
            invariant
                finished(self@, texts(words@), line@, texts(watch_lines@)) == finished(
                    old(self)@,
                    texts(words@),
                    line@,
                    texts(watch_lines@),
                ),
            decreases words.len() - self.next,
        {
            proof {
                lemma_stepped_advances(self@, texts(words@), line@, texts(watch_lines@));
            }
            self.step(words, line, watch_lines);
        }
    }

    /// Reads the values of a `poke` from the word that stands next.
    fn poke(&mut self, words: &Vec<Vec<char>>, to: u16)
        ensures
            final(self)@ == poked(old(self)@, texts(words@), to),
    {
        let mut at: u16 = to;
        while self.next < words.len()
            invariant_except_break
                poked(self@, texts(words@), at) == poked(old(self)@, texts(words@), to),
            ensures
                self@ == poked(old(self)@, texts(words@), to),
            decreases words.len() - self.next,
        {
            let word = &words[self.next];
            assert(texts(words@)[self.next as int] == word@);
            if takes_more_bytes(word, 4) {
                let values = groups_of(word);
                at = self.send_writes(at, &values);
                self.take();
            } else {
                match parse_hex_u16(word) {
                    Some(v) => {
                        self.send(SimCommand::Write(at, v));
                        self.take();
                        at = next_address(at);
                    },
                    None => {
                        self.fail(concat("Invalid value. Expected a number but got: ", word));
                        break ;
                    },
                }
            }
        }
    }
}

} // verus!
