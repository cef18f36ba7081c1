//! The pointer: where it is, where its left button went down, and the clicks
//! and drops that have not been dealt with.

use vstd::prelude::*;
use crate::layout::Position;

verus! {

/// What the pointer did.
#[derive(Debug, Clone, Copy, PartialEq, Eq, Structural)]
pub enum MouseInput {
    /// It moved with no button held.
    Moved,
    /// It moved with a button held.
    Drag,
    /// The wheel turned towards the operator.
    ScrollDown,
    /// The wheel turned away from the operator.
    ScrollUp,
    /// The left button went down.
    LeftDown,
    /// The left button came up.
    LeftUp,
    /// Anything else.
    Other,
}

/// The state of the pointer.
#[derive(Debug, Clone, PartialEq, Eq)]
pub struct Mouse {
    /// The cell at which the pointer was last seen moving.
    pub pos: Option<Position>,
    /// The cell at which the left button last went down.
    pub down: Position,
    /// Clicks that wait to be resolved, oldest first.
    pub clicks: Vec<Position>,
    /// Drops, as the cells at which the button went down and came up.
    pub drops: Vec<(Position, Position)>,
}

/// The pointer's state with its lists as sequences.
pub struct MouseView {
    pub pos: Option<Position>,
    pub down: Position,
    pub clicks: Seq<Position>,
    pub drops: Seq<(Position, Position)>,
}

impl View for Mouse {
    type V = MouseView;

    open spec fn view(&self) -> MouseView {
        MouseView { pos: self.pos, down: self.down, clicks: self.clicks@, drops: self.drops@ }
    }
}

impl MouseView {
    /// The state after the pointer did `input` at the cell `at`. The wheel
    /// leaves the pointer's state as it is. A left button that comes up where
    /// it went down is a click; one that comes up elsewhere is a drop, and so
    /// is every move with a button held.
    pub open spec fn after(self, input: MouseInput, at: Position) -> MouseView {
        match input {
            MouseInput::Moved => MouseView { pos: Some(at), ..self },
            MouseInput::Drag => MouseView {
                pos: Some(at),
                drops: self.drops.push((self.down, at)),
                ..self
            },
            MouseInput::LeftDown => MouseView { down: at, ..self },
            MouseInput::LeftUp => if self.down == at {
                MouseView { clicks: self.clicks.push(at), ..self }
            } else {
                MouseView { drops: self.drops.push((self.down, at)), ..self }
            },
            _ => self,
        }
    }
}

/// A pointer that has not been seen, with its button last down at the top left.
pub open spec fn unseen() -> MouseView {
    MouseView {
        pos: None,
        down: Position { x: 0, y: 0 },
        clicks: Seq::empty(),
        drops: Seq::empty(),
    }
}

impl Mouse {
    /// A pointer that has not been seen, with its button last down at the top left.
    pub fn new() -> (mouse: Mouse)
        ensures
            mouse@ == unseen(),
    {
        Mouse { pos: None, down: Position { x: 0, y: 0 }, clicks: Vec::new(), drops: Vec::new() }
    }

    /// Takes in what the pointer did at the cell `at`.
    pub fn handle(&mut self, input: MouseInput, at: Position)
        ensures
            final(self)@ == old(self)@.after(input, at),
    {
        match input {
            MouseInput::Moved => {
                self.pos = Some(at);
            },
            MouseInput::Drag => {
                self.pos = Some(at);
                self.drops.push((self.down, at));
            },
            MouseInput::LeftDown => {
                self.down = at;
            },
            MouseInput::LeftUp => {
                if self.down.x == at.x && self.down.y == at.y {
                    self.clicks.push(at);
                } else {
                    self.drops.push((self.down, at));
                }
            },
            _ => {},
        }
    }
}

} // verus!
