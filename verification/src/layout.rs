//! Cells and rectangles of the terminal, and how the console divides the
//! screen among its panels.

use vstd::prelude::*;

verus! {

/// A cell of the terminal: column and row, counted from the top left.
#[derive(Debug, Clone, Copy, PartialEq, Eq, Structural)]
pub struct Position {
    pub x: u16,
    pub y: u16,
}

/// A rectangle of cells.
#[derive(Debug, Clone, Copy, PartialEq, Eq, Structural)]
pub struct Rect {
    pub x: u16,
    pub y: u16,
    pub width: u16,
    pub height: u16,
}

/// The smaller of two numbers.
pub open spec fn least(a: int, b: int) -> int {
    if a <= b {
        a
    } else {
        b
    }
}

/// The larger of two numbers.
pub open spec fn most(a: int, b: int) -> int {
    if a >= b {
        a
    } else {
        b
    }
}

/// The rectangle at `(x, y)` of the given size, made narrower or lower where it
/// would otherwise reach beyond the last column or row that can be counted.
pub open spec fn clamped(x: u16, y: u16, width: u16, height: u16) -> Rect {
    Rect {
        x,
        y,
        width: least(width as int, 0xffff - x) as u16,
        height: least(height as int, 0xffff - y) as u16,
    }
}

impl Rect {
    /// The first column to the right of the rectangle, or the last column that
    /// can be counted.
    pub open spec fn right(self) -> int {
        least(self.x + self.width, 0xffff)
    }

    /// The first row below the rectangle, or the last row that can be counted.
    pub open spec fn bottom(self) -> int {
        least(self.y + self.height, 0xffff)
    }

    /// Whether a cell lies in the rectangle.
    pub open spec fn holds(self, p: Position) -> bool {
        self.x <= p.x < self.right() && self.y <= p.y < self.bottom()
    }

    /// The cells that two rectangles share.
    pub open spec fn shared(self, other: Rect) -> Rect {
        let x = most(self.x as int, other.x as int);
        let y = most(self.y as int, other.y as int);
        let x2 = least(self.right(), other.right());
        let y2 = least(self.bottom(), other.bottom());
        Rect {
            x: x as u16,
            y: y as u16,
            width: most(x2 - x, 0) as u16,
            height: most(y2 - y, 0) as u16,
        }
    }
}

impl Rect {
    /// The rectangle at `(x, y)` of the given size, cut at the last column and
    /// row that can be counted.
    ///
    /// Calls `ratatui::layout::Rect::new`, which keeps the corner and cuts width
    /// and height so that the right and bottom edges stay within what 16 bits
    /// can count.
    #[verifier::external_body]
    pub(crate) fn new(x: u16, y: u16, width: u16, height: u16) -> (r: Rect)
        ensures
            r == clamped(x, y, width, height),
    {
        let r = ratatui::layout::Rect::new(x, y, width, height);
        Rect { x: r.x, y: r.y, width: r.width, height: r.height }
    }

    /// Whether a cell lies in the rectangle.
    ///
    /// Calls `ratatui::layout::Rect::contains`, which holds a cell to lie in a
    /// rectangle where it is at or after its left and top edges and before its
    /// right and bottom edges, which do not go beyond what 16 bits can count.
    #[verifier::external_body]
    pub(crate) fn contains(self, p: Position) -> (inside: bool)
        ensures
            inside == self.holds(p),
    {
        let area =
            ratatui::layout::Rect { x: self.x, y: self.y, width: self.width, height: self.height };
        area.contains(ratatui::layout::Position { x: p.x, y: p.y })
    }

    /// The cells that the rectangle shares with another.
    ///
    /// Calls `ratatui::layout::Rect::intersection`: the result begins at the
    /// larger of the left and of the top edges and ends at the smaller of the
    /// right and of the bottom edges, and has no width or no height where the
    /// two do not meet.
    #[verifier::external_body]
    pub(crate) fn intersection(self, other: Rect) -> (r: Rect)
        ensures
            r == self.shared(other),
    {
        let a =
            ratatui::layout::Rect { x: self.x, y: self.y, width: self.width, height: self.height };
        let b = ratatui::layout::Rect {
            x: other.x,
            y: other.y,
            width: other.width,
            height: other.height,
        };
        let r = a.intersection(b);
        Rect { x: r.x, y: r.y, width: r.width, height: r.height }
    }
}

impl Default for Rect {
    fn default() -> (r: Rect)
        ensures
            r == (Rect { x: 0, y: 0, width: 0, height: 0 }),
    {
        Rect { x: 0, y: 0, width: 0, height: 0 }
    }
}

/// The rectangle `rect`, whose corner is given within `parent`, on the screen.
pub fn rect_within(rect: Rect, parent: Rect) -> (r: Rect)
    requires
        rect.x + parent.x <= u16::MAX,
        rect.y + parent.y <= u16::MAX,
    ensures
        r == clamped((rect.x + parent.x) as u16, (rect.y + parent.y) as u16, rect.width, rect.height),
{
    Rect::new(rect.x + parent.x, rect.y + parent.y, rect.width, rect.height)
}

/// A side of a rectangle.
#[derive(Debug, Clone, Copy, PartialEq, Eq, Structural)]
pub enum AttachSide {
    Left,
    Right,
    Top,
    Bottom,
}

/// The column at which a rectangle of width `width` begins when it is put at
/// `side` of `parent`.
pub open spec fn attached_x(width: u16, parent: Rect, side: AttachSide) -> int {
    match side {
        AttachSide::Left => parent.x - width,
        AttachSide::Right => parent.x + parent.width,
        _ => parent.x as int,
    }
}

/// The row at which a rectangle of height `height` begins when it is put at
/// `side` of `parent`.
pub open spec fn attached_y(height: u16, parent: Rect, side: AttachSide) -> int {
    match side {
        AttachSide::Top => parent.y - height,
        AttachSide::Bottom => parent.y + parent.height,
        _ => parent.y as int,
    }
}

/// A rectangle of the size of `rect` that touches `parent` from outside at the
/// given side, with its corner in line with the parent's.
pub fn attach_to(rect: Rect, parent: Rect, side: AttachSide) -> (r: Rect)
    requires
        0 <= attached_x(rect.width, parent, side) <= u16::MAX,
        0 <= attached_y(rect.height, parent, side) <= u16::MAX,
    ensures
        r == clamped(
            attached_x(rect.width, parent, side) as u16,
            attached_y(rect.height, parent, side) as u16,
            rect.width,
            rect.height,
        ),
{
    let x = match side {
        AttachSide::Left => parent.x - rect.width,
        AttachSide::Right => parent.x + parent.width,
        _ => parent.x,
    };
    let y = match side {
        AttachSide::Top => parent.y - rect.height,
        AttachSide::Bottom => parent.y + parent.height,
        _ => parent.y,
    };
    Rect::new(x, y, rect.width, rect.height)
}

/// The panels of the console on the screen.
#[derive(Debug, Clone, Copy, PartialEq, Eq, Structural)]
pub struct UIRegions {
    /// Whether the screen is large enough for the panels.
    pub valid: bool,
    pub full: Rect,
    pub main: Rect,
    pub input: Rect,
    pub sidebar: Rect,
    pub registers: Rect,
    pub memory: Rect,
    pub scrollbar: Rect,
    pub status: Rect,
}

/// Width of the sidebar with the status, register and watch panels.
pub const SIDEBAR_WIDTH: u16 = 56;

/// Width of the scrollbar between the main view and the sidebar.
pub const SCROLLBAR_WIDTH: u16 = 1;

/// Least width of the main view.
pub const MAIN_MIN_WIDTH: u16 = 16;

/// Height of the input line's panel.
pub const INPUT_HEIGHT: u16 = 3;

/// Height of the status panel.
pub const STATUS_HEIGHT: u16 = 4;

/// Height of the register panel.
pub const REGISTERS_HEIGHT: u16 = 10;

/// Least height of the watch panels.
pub const MEMORY_MIN_HEIGHT: u16 = 10;

/// The rectangle without cells at the top left.
pub open spec fn no_rect() -> Rect {
    Rect { x: 0, y: 0, width: 0, height: 0 }
}

/// Whether a screen of `w` columns and `h` rows has room for the panels.
pub open spec fn fits(w: u16, h: u16) -> bool {
    w >= SIDEBAR_WIDTH + SCROLLBAR_WIDTH + MAIN_MIN_WIDTH && h >= STATUS_HEIGHT + REGISTERS_HEIGHT
        + MEMORY_MIN_HEIGHT
}

/// The panels on a screen of `w` columns and `h` rows. The input panel takes
/// the bottom rows; above it the sidebar takes the right columns, the scrollbar
/// the column left of it and the main view the rest; status, registers and
/// watch panels fill the sidebar from the top.
pub open spec fn regions_of(w: u16, h: u16) -> UIRegions {
    if !fits(w, h) {
        UIRegions {
            valid: false,
            full: no_rect(),
            main: no_rect(),
            input: no_rect(),
            sidebar: no_rect(),
            registers: no_rect(),
            memory: no_rect(),
            scrollbar: no_rect(),
            status: no_rect(),
        }
    } else {
        let above = (h - INPUT_HEIGHT) as u16;
        let left = (w - SIDEBAR_WIDTH) as u16;
        UIRegions {
            valid: true,
            full: Rect { x: 0, y: 0, width: w, height: h },
            main: Rect { x: 0, y: 0, width: (left - SCROLLBAR_WIDTH) as u16, height: above },
            input: Rect { x: 0, y: above, width: w, height: INPUT_HEIGHT },
            sidebar: Rect { x: left, y: 0, width: SIDEBAR_WIDTH, height: above },
            registers: Rect {
                x: left,
                y: STATUS_HEIGHT,
                width: SIDEBAR_WIDTH,
                height: REGISTERS_HEIGHT,
            },
            memory: Rect {
                x: left,
                y: (STATUS_HEIGHT + REGISTERS_HEIGHT) as u16,
                width: SIDEBAR_WIDTH,
                height: (above - STATUS_HEIGHT - REGISTERS_HEIGHT) as u16,
            },
            scrollbar: Rect {
                x: (left - SCROLLBAR_WIDTH) as u16,
                y: 0,
                width: SCROLLBAR_WIDTH,
                height: above,
            },
            status: Rect { x: left, y: 0, width: SIDEBAR_WIDTH, height: STATUS_HEIGHT },
        }
    }
}

impl Default for UIRegions {
    fn default() -> (regions: UIRegions)
        ensures
            regions == regions_of(0, 0),
    {
        let none = Rect::default();
        UIRegions {
            valid: false,
            full: none,
            main: none,
            input: none,
            sidebar: none,
            registers: none,
            memory: none,
            scrollbar: none,
            status: none,
        }
    }
}

/// Divides a screen of `w` columns and `h` rows among the panels.
pub fn generate_regions(w: u16, h: u16) -> (regions: UIRegions)
    ensures
        regions == regions_of(w, h),
{
    if w < SIDEBAR_WIDTH + SCROLLBAR_WIDTH + MAIN_MIN_WIDTH || h < STATUS_HEIGHT + REGISTERS_HEIGHT
        + MEMORY_MIN_HEIGHT {
        let mut none = UIRegions::default();
        none.valid = false;
        return none;
    }
    let full = Rect::new(0, 0, w, h);
    let main = Rect::new(0, 0, w - SIDEBAR_WIDTH - SCROLLBAR_WIDTH, h - INPUT_HEIGHT);
    let input = Rect::new(0, h - INPUT_HEIGHT, w, INPUT_HEIGHT);
    let sidebar = Rect::new(w - SIDEBAR_WIDTH, 0, SIDEBAR_WIDTH, h - INPUT_HEIGHT);
    let scrollbar = Rect::new(
        w - SIDEBAR_WIDTH - SCROLLBAR_WIDTH,
        0,
        SCROLLBAR_WIDTH,
        sidebar.height,
    );
    let status = rect_within(Rect::new(0, 0, SIDEBAR_WIDTH, STATUS_HEIGHT), sidebar);
    let registers = attach_to(
        Rect::new(0, 0, SIDEBAR_WIDTH, REGISTERS_HEIGHT),
        status,
        AttachSide::Bottom,
    );
    let my = registers.y + registers.height;
    let memory = Rect::new(sidebar.x, my, SIDEBAR_WIDTH, sidebar.height - my);
    UIRegions { valid: true, full, main, input, sidebar, registers, memory, scrollbar, status }
}

} // verus!
