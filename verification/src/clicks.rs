//! Clicks in the code view, and the breakpoints that they toggle.
//!
//! A click is resolved once the frame is drawn: where it fell on a row of the
//! code view, it becomes an action that toggles the breakpoint at the address
//! shown in that row. Actions are carried out before the console next turns
//! to its input, and each gives the controller the whole list of breakpoints.

use vstd::prelude::*;
use crate::app::{App, AppActions, AppView, ViewMode, CODE_ROWS};
use crate::breakpoints::{lemma_toggle_twice, toggled};

use crate::pointer::MouseView;
use crate::protocol::{command_views, SimCommand, SimCommandView};

verus! {

/// The breakpoints after the actions were carried out, last first, and the
/// commands that tell the controller of each.
pub open spec fn carried_out(breakpoints: Seq<u16>, actions: Seq<AppActions>) -> (
    Seq<u16>,
    Seq<SimCommandView>,
)
    decreases actions.len(),
{
    if actions.len() == 0 {
        (breakpoints, Seq::empty())
    } else {
        match actions.last() {
            AppActions::Breakpoint(addr) => {
                let list = toggled(breakpoints, addr);
                let rest = carried_out(list, actions.drop_last());
                (rest.0, seq![SimCommandView::Breakpoints(list)] + rest.1)
            },
        }
    }
}

/// Two clicks on the same row of the code view leave the set of breakpoints
/// as it was.
pub proof fn lemma_two_clicks(breakpoints: Seq<u16>, addr: u16)
    requires
        breakpoints.no_duplicates(),
    ensures
        carried_out(
            breakpoints,
            seq![AppActions::Breakpoint(addr), AppActions::Breakpoint(addr)],
        ).0.to_set() == breakpoints.to_set(),
{
    let both = seq![AppActions::Breakpoint(addr), AppActions::Breakpoint(addr)];
    let once = toggled(breakpoints, addr);
    assert(both.drop_last() =~= seq![AppActions::Breakpoint(addr)]);
    assert(both.drop_last().drop_last() =~= Seq::<AppActions>::empty());
    assert(carried_out(once, both.drop_last()).0 == toggled(once, addr)) by {
        reveal_with_fuel(carried_out, 3);
    }
    lemma_toggle_twice(breakpoints, addr);
}

impl AppView {
    /// The address shown in the row of the code view on which the last click
    /// fell, if it fell on one: the pointer was last seen in the main panel,
    /// in the row of the click, while the code view is shown, and that row
    /// shows a word of the mirrored memory.
    pub open spec fn clicked_address(self) -> Option<u16> {
        let area = self.ui_regions.main;
        match self.mouse.pos {
            None => None,
            Some(at) => {
                let row = self.code_scroll + (at.y - area.y);
                if self.view_mode == ViewMode::Code && self.mouse.clicks.len() > 0 && area.holds(at)
                    && self.mouse.clicks.last().y == at.y && row < CODE_ROWS && self.code_offset
                    + row < self.sim_state.memory.len() && self.code_offset + row <= 0xffff {
                    Some((self.code_offset + row) as u16)
                } else {
                    None
                }
            },
        }
    }

    /// The console after the clicks of a frame were resolved: the last click
    /// toggles a breakpoint where it fell on a row of the code, and no click
    /// is left. While the screen is too small nothing is resolved.
    pub open spec fn clicks_resolved(self) -> AppView {
        if !self.ui_regions.valid {
            self
        } else {
            AppView {
                actions: match self.clicked_address() {
                    Some(addr) => self.actions.push(AppActions::Breakpoint(addr)),
                    None => self.actions,
                },
                mouse: MouseView { clicks: Seq::empty(), ..self.mouse },
                ..self
            }
        }
    }
}

impl App {
    /// The address shown in the row of the code view on which the last click fell.
    pub fn clicked_row(&self) -> (addr: Option<u16>)
        ensures
            addr == self@.clicked_address(),
    {
        let area = self.ui_regions.main;
        let at = match self.mouse.pos {
            Some(at) => at,
            None => {
                return None;
            },
        };
        let code = match self.view_mode {
            ViewMode::Code => true,
            _ => false,
        };
        let n = self.mouse.clicks.len();
        if !code || n == 0 || !area.contains(at) || self.mouse.clicks[n - 1].y != at.y {
            return None;
        }
        let row: usize = (at.y - area.y) as usize;
        if self.code_scroll >= CODE_ROWS || row >= CODE_ROWS - self.code_scroll {
            return None;
        }
        let index: usize = self.code_scroll + row;
        if self.code_offset >= self.sim_state.memory.len() || index >= self.sim_state.memory.len()
            - self.code_offset {
            return None;
        }
        let addr: usize = self.code_offset + index;
        if addr > 0xffff {
            return None;
        }
        Some(addr as u16)
    }

    /// Resolves the clicks of the frame that was drawn.
    pub fn resolve_clicks(&mut self)
        ensures
            final(self)@ == old(self)@.clicks_resolved(),
    {
        if !self.ui_regions.valid {
            return ;
        }
        match self.clicked_row() {
            Some(addr) => {
                self.actions.push(AppActions::Breakpoint(addr));
            },
            None => {},
        }
        self.mouse.clicks.clear();
    }

    /// Carries out the actions that wait, last first, and gives the commands
    /// to send for them.
    pub fn run_actions(&mut self) -> (commands: Vec<SimCommand>)
        ensures
            final(self)@ == (AppView {
                breakpoints: carried_out(old(self)@.breakpoints, old(self)@.actions).0,
                actions: Seq::empty(),
                ..old(self)@
            }),
            command_views(commands@) == carried_out(old(self)@.breakpoints, old(self)@.actions).1,
    {
        let mut commands: Vec<SimCommand> = Vec::new();
        let ghost goal = carried_out(old(self)@.breakpoints, old(self)@.actions);
        assert(command_views(commands@) + goal.1 =~= goal.1);
        while self.actions.len() > 0
            invariant
                self@ == (AppView {
                    breakpoints: self@.breakpoints,
                    actions: self@.actions,
                    ..old(self)@
                }),
                carried_out(self@.breakpoints, self@.actions).0 == goal.0,
                command_views(commands@) + carried_out(self@.breakpoints, self@.actions).1
                    == goal.1,
            decreases self.actions.len(),
        {
            let ghost sent = command_views(commands@);
            let ghost waiting = self@.actions;
            let ghost before = self@.breakpoints;
            match self.actions.pop() {
                Some(AppActions::Breakpoint(addr)) => {
                    assert(self@.actions =~= waiting.drop_last());
                    self.breakpoints.toggle(addr);
                    let list = self.breakpoints.to_vec();
                    commands.push(SimCommand::Breakpoints(list));
                    assert(command_views(commands@) =~= sent.push(
                        SimCommandView::Breakpoints(list@),
                    ));
                    assert(sent.push(SimCommandView::Breakpoints(list@)) + carried_out(
                        self@.breakpoints,
                        self@.actions,
                    ).1 =~= sent + carried_out(before, waiting).1);
                },
                None => {},
            }
        }
        assert(self@.actions =~= Seq::empty());
        assert(command_views(commands@) =~= goal.1);
        commands
    }
}

} // verus!
