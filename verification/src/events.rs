//! How the console takes in the controller's reports.
//!
//! Memory, run state and ship are mirrored for the active user only; what
//! is reported for another user is dropped. A change of user and a failure are
//! printed. While the program is traced, each report of its run state that
//! follows a step asks for a line that names the instruction it stands at.

use vstd::prelude::*;
use crate::app::{App, AppView};
use crate::color::Color;
use crate::mirror::word_at;
use crate::number::{decimal_text, hex_text, number_text};
use crate::protocol::{SimOutput, SimOutputView, SimStateUpdateView};
use crate::scrollback::{plain, LineView};
use crate::text::{append, append_str, chars_of, string_of};

verus! {

/// A line of the trace that is due: the instruction at which the program of
/// `user` stands, to be named by the decoder.
#[derive(Debug, Clone, PartialEq, Eq)]
pub struct TraceRequest {
    pub user: u64,
    /// The address of the instruction.
    pub addr: u16,
    /// The instruction word.
    pub word: u16,
    /// Why the program halted, to be printed after the line.
    pub halt_reason: Option<String>,
}

/// A request with its text as a sequence.
pub struct TraceView {
    pub user: u64,
    pub addr: u16,
    pub word: u16,
    pub halt_reason: Option<Seq<char>>,
}

impl View for TraceRequest {
    type V = TraceView;

    open spec fn view(&self) -> TraceView {
        TraceView {
            user: self.user,
            addr: self.addr,
            word: self.word,
            halt_reason: match self.halt_reason {
                Some(reason) => Some(reason@),
                None => None,
            },
        }
    }
}

/// The line that tells of a change of user.
pub open spec fn user_changed_text(user: u64) -> Seq<char> {
    "Active user changed to "@ + number_text(user as nat, 10, 1)
}

/// The line that tells of a failure.
pub open spec fn error_text(what: Seq<char>) -> Seq<char> {
    "Error: "@ + what
}

/// The line that tells why a user's program halted.
pub open spec fn halted_text(user: u64, reason: Seq<char>) -> Seq<char> {
    "User "@ + number_text(user as nat, 10, 1) + " halted: "@ + reason
}

/// The line of the trace for an instruction that the decoder calls `opcode`.
pub open spec fn trace_line(user: u64, addr: u16, word: u16, opcode: Seq<char>) -> LineView {
    seq![
        ("U"@, Color::White),
        (number_text(user as nat, 10, 1), Color::LightBlue),
        (": "@, Color::White),
        (
            seq!['@'] + number_text(addr as nat, 16, 4) + seq!['['] + number_text(
                word as nat,
                16,
                4,
            ) + seq![']', ' '] + opcode,
            Color::White,
        ),
    ]
}

impl AppView {
    /// The console after a report of the run state of the active user, and
    /// the line of the trace that the report asks for.
    pub open spec fn after_update(self, user: u64, update: SimStateUpdateView) -> (
        AppView,
        Option<TraceView>,
    ) {
        let state = self.sim_state.with_update(user, update);
        let next = AppView { sim_state: state, ..self };
        if user != self.sim_state.active_user {
            (self, None)
        } else if state.stepping() {
            (
                next,
                Some(
                    TraceView {
                        user,
                        addr: state.pc(),
                        word: word_at(state.memory, state.pc() as int),
                        halt_reason: update.halt_reason,
                    },
                ),
            )
        } else {
            match update.halt_reason {
                Some(reason) => (
                    AppView { log: self.log.print(plain(halted_text(user, reason))), ..next },
                    None,
                ),
                None => (next, None),
            }
        }
    }

    /// The console after a report of the controller, and the line of the
    /// trace that the report asks for.
    pub open spec fn after_event(self, event: SimOutputView) -> (AppView, Option<TraceView>) {
        match event {
            SimOutputView::MemoryValue(user, addr, value) => (
                AppView { sim_state: self.sim_state.with_words(user, addr, seq![value]), ..self },
                None,
            ),
            SimOutputView::MemoryValues(user, addr, words) => (
                AppView { sim_state: self.sim_state.with_words(user, addr, words), ..self },
                None,
            ),
            SimOutputView::ChangeUser(user) => (
                AppView { log: self.log.print(plain(user_changed_text(user))), ..self },
                None,
            ),
            SimOutputView::Error(what) => (
                AppView { log: self.log.print(plain(error_text(what))), ..self },
                None,
            ),
            SimOutputView::SimState(user, update) => self.after_update(user, update),
            SimOutputView::ShipState(user, ship) => if user == self.sim_state.active_user {
                (AppView { ship, ..self }, None)
            } else {
                (self, None)
            },
        }
    }

    /// The console after the line of the trace that was asked for is printed,
    /// with the instruction named `opcode`.
    pub open spec fn traced(self, request: TraceView, opcode: Seq<char>) -> AppView {
        let log = self.log.print(trace_line(request.user, request.addr, request.word, opcode));
        match request.halt_reason {
            Some(reason) => AppView {
                log: log.print(plain(halted_text(request.user, reason))),
                ..self
            },
            None => AppView { log, ..self },
        }
    }
}

/// The user whose state an event reports, for the events that report the
/// state of one user: memory, run state and ship.
pub open spec fn reported_user(event: SimOutputView) -> Option<u64> {
    match event {
        SimOutputView::MemoryValue(user, _, _) => Some(user),
        SimOutputView::MemoryValues(user, _, _) => Some(user),
        SimOutputView::SimState(user, _) => Some(user),
        SimOutputView::ShipState(user, _) => Some(user),
        _ => None,
    }
}

/// What is reported of another user than the active one is dropped: a word or
/// words of memory, a run state or a ship of another user leave the console
/// as it is and ask for no line of the trace.
pub proof fn lemma_other_users_are_dropped(app: AppView, event: SimOutputView)
    requires
        reported_user(event) is Some,
        reported_user(event) != Some(app.sim_state.active_user),
    ensures
        app.after_event(event) == (app, None::<TraceView>),
{
}

/// The line that tells why a user's program halted.
fn halted_message(user: u64, reason: &String) -> (text: String)
    ensures
        text@ == halted_text(user, reason@),
{
    let mut text = chars_of("User ");
    append(&mut text, &decimal_text(user));
    append_str(&mut text, " halted: ");
    append_str(&mut text, reason.as_str());
    string_of(&text)
}

impl App {
    /// Takes in a report of the controller. Where the result is a request, the
    /// caller has the decoder name the instruction and hands the name to
    /// `print_trace`.
    pub fn apply_event(&mut self, event: SimOutput) -> (request: Option<TraceRequest>)
        ensures
            final(self)@ == old(self)@.after_event(event@).0,
            match request {
                Some(r) => old(self)@.after_event(event@).1 == Some(r@),
                None => old(self)@.after_event(event@).1 is None,
            },
    {
        match event {
            SimOutput::MemoryValue(user, addr, value) => {
                let mut words: Vec<u16> = Vec::new();
                words.push(value);
                assert(words@ =~= seq![value]);
                self.sim_state.store(user, addr, &words);
                None
            },
            SimOutput::MemoryValues(user, addr, words) => {
                self.sim_state.store(user, addr, &words);
                None
            },
            SimOutput::ChangeUser(user) => {
                let mut text = chars_of("Active user changed to ");
                append(&mut text, &decimal_text(user));
                self.log.print_plain(string_of(&text));
                None
            },
            SimOutput::Error(what) => {
                let mut text = chars_of("Error: ");
                append_str(&mut text, what.as_str());
                self.log.print_plain(string_of(&text));
                None
            },
            SimOutput::SimState(user, update) => {
                if user != self.sim_state.active_user {
                    return None;
                }
                self.sim_state.update(user, &update);
                if self.sim_state.debug_mode && self.sim_state.sleep == 0 && self.sim_state.running {
                    let addr = self.sim_state.pc();
                    let word = self.sim_state.word(addr as usize);
                    Some(TraceRequest { user, addr, word, halt_reason: update.halt_reason })
                } else {
                    match update.halt_reason {
                        Some(reason) => {
                            self.log.print_plain(halted_message(user, &reason));
                        },
                        None => {},
                    }
                    None
                }
            },
            SimOutput::ShipState(user, ship) => {
                if user == self.sim_state.active_user {
                    self.ship = ship;
                }
                None
            },
        }
    }

    /// Prints the line of the trace that `apply_event` asked for, with the
    /// instruction named `opcode`, and after it the reason of a halt.
    pub fn print_trace(&mut self, request: TraceRequest, opcode: &str)
        ensures
            final(self)@ == old(self)@.traced(request@, opcode@),
    {
        let mut last: Vec<char> = Vec::new();
        last.push('@');
        append(&mut last, &hex_text(request.addr as u64, 4));
        last.push('[');
        append(&mut last, &hex_text(request.word as u64, 4));
        last.push(']');
        last.push(' ');
        append_str(&mut last, opcode);
        let mut pieces: Vec<(String, Color)> = Vec::new();
        pieces.push((string_of(&chars_of("U")), Color::White));
        pieces.push((string_of(&decimal_text(request.user)), Color::LightBlue));
        pieces.push((string_of(&chars_of(": ")), Color::White));
        pieces.push((string_of(&last), Color::White));
        assert(last@ =~= seq!['@'] + number_text(request.addr as nat, 16, 4) + seq!['[']
            + number_text(request.word as nat, 16, 4) + seq![']', ' '] + opcode@);
        assert(pieces@.map_values(|p: (String, Color)| (p.0@, p.1)) =~= trace_line(
            request.user,
            request.addr,
            request.word,
            opcode@,
        ));
        self.log.printc(pieces);
        match request.halt_reason {
            Some(reason) => {
                self.log.print_plain(halted_message(request.user, &reason));
            },
            None => {},
        }
    }
}

} // verus!
