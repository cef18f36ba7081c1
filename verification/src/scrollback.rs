//! The console's log: the last lines that were printed, and how far the log
//! view is scrolled back.

use vstd::prelude::*;
use crate::color::{Color, ColoredString};
use crate::text::{string_of, texts};

verus! {

/// The most lines that the log keeps.
pub const LOG_CAPACITY: usize = 200;

impl View for ColoredString {
    type V = (Seq<char>, Color);

    open spec fn view(&self) -> (Seq<char>, Color) {
        (self.text@, self.color)
    }
}

/// A line of the log: pieces of text, each with its colour.
pub type LineView = Seq<(Seq<char>, Color)>;

/// What a line of coloured pieces says.
pub open spec fn line_view(line: Seq<ColoredString>) -> LineView {
    line.map_values(|s: ColoredString| s@)
}

/// What each line of a list says.
pub open spec fn line_views(lines: Seq<Vec<ColoredString>>) -> Seq<LineView> {
    lines.map_values(|l: Vec<ColoredString>| line_view(l@))
}

/// A line of one white piece.
pub open spec fn plain(text: Seq<char>) -> LineView {
    seq![(text, Color::White)]
}

/// The lines of a log after `line` was printed: the line is added at the end,
/// and the oldest line leaves where the log would hold more than it keeps.
pub open spec fn printed(lines: Seq<LineView>, line: LineView) -> Seq<LineView> {
    if lines.len() + 1 > LOG_CAPACITY {
        lines.push(line).skip(1)
    } else {
        lines.push(line)
    }
}

/// How far a log is scrolled back after a line was printed to it: one line
/// less than before, where it was scrolled back at all.
pub open spec fn scrolled_by_print(position: int, lines: Seq<LineView>) -> int {
    let back = if position > 0 {
        position - 1
    } else {
        0
    };
    if back <= lines.len() {
        back
    } else {
        lines.len() as int
    }
}

/// The log.
pub struct Log {
    /// The lines, oldest first.
    pub lines: Vec<Vec<ColoredString>>,
    /// The number of lines by which the view is scrolled back from the newest.
    pub position: usize,
}

/// A log with its lines as sequences.
pub struct LogView {
    pub lines: Seq<LineView>,
    pub position: int,
}

impl View for Log {
    type V = LogView;

    open spec fn view(&self) -> LogView {
        LogView { lines: line_views(self.lines@), position: self.position as int }
    }
}

impl LogView {
    /// The log after `line` was printed.
    pub open spec fn print(self, line: LineView) -> LogView {
        LogView {
            lines: printed(self.lines, line),
            position: scrolled_by_print(self.position, printed(self.lines, line)),
        }
    }

    /// The log after each line of `lines` was printed as a white line.
    pub open spec fn print_all(self, lines: Seq<Seq<char>>) -> LogView
        decreases lines.len(),
    {
        if lines.len() == 0 {
            self
        } else {
            self.print_all(lines.drop_last()).print(plain(lines.last()))
        }
    }
}

/// The log without lines.
pub open spec fn empty_log() -> LogView {
    LogView { lines: Seq::empty(), position: 0 }
}

impl Log {
    /// A log without lines.
    pub fn new() -> (log: Log)
        ensures
            log@ == empty_log(),
    {
        let log = Log { lines: Vec::new(), position: 0 };
        assert(log@.lines =~= Seq::empty());
        log
    }

    /// Prints a line of coloured pieces.
    pub fn print(&mut self, line: Vec<ColoredString>)
        ensures
            final(self)@ == old(self)@.print(line_view(line@)),
            old(self)@.lines.len() <= LOG_CAPACITY ==> final(self)@.lines.len() <= LOG_CAPACITY,
    {
        let ghost before = line_views(self.lines@);
        self.lines.push(line);
        assert(line_views(self.lines@) =~= before.push(line_view(line@)));
        if self.lines.len() > LOG_CAPACITY {
            self.lines.remove(0);
            assert(line_views(self.lines@) =~= before.push(line_view(line@)).skip(1));
        }
        let back = if self.position > 0 {
            self.position - 1
        } else {
            0
        };
        self.position = if back <= self.lines.len() {
            back
        } else {
            self.lines.len()
        };
    }

    /// Prints pieces of text, each in its colour, as one line.
    pub fn printc(&mut self, pieces: Vec<(String, Color)>)
        ensures
            final(self)@ == old(self)@.print(pieces@.map_values(|p: (String, Color)| (p.0@, p.1))),
    {
        let mut line: Vec<ColoredString> = Vec::new();
        let mut pieces = pieces;
        let ghost all = pieces@.map_values(|p: (String, Color)| (p.0@, p.1));
        assert(line_view(line@) =~= all.take(0));
        while pieces.len() > 0
            invariant
                line_view(line@) + pieces@.map_values(|p: (String, Color)| (p.0@, p.1)) == all,
            decreases pieces.len(),
        {
            let ghost done = line_view(line@);
            let ghost rest = pieces@.map_values(|p: (String, Color)| (p.0@, p.1));
            let (text, color) = pieces.remove(0);
            line.push(ColoredString { text, color });
            assert(line_view(line@) =~= done.push(rest[0]));
            assert(pieces@.map_values(|p: (String, Color)| (p.0@, p.1)) =~= rest.skip(1));
            assert(done.push(rest[0]) + rest.skip(1) =~= done + rest);
        }
        assert(line_view(line@) =~= all);
        self.print(line);
    }

    /// Prints a line of white text.
    pub fn print_plain(&mut self, text: String)
        ensures
            final(self)@ == old(self)@.print(plain(text@)),
    {
        let mut line: Vec<ColoredString> = Vec::new();
        line.push(ColoredString { text, color: Color::White });
        assert(line_view(line@) =~= plain(text@));
        self.print(line);
    }

    /// Prints each of `lines` as a line of white text.
    pub fn print_lines(&mut self, lines: &Vec<Vec<char>>)
        ensures
            final(self)@ == old(self)@.print_all(texts(lines@)),
    {
        let ghost all = texts(lines@);
        let mut i: usize = 0;
        assert(all.take(0) =~= Seq::<Seq<char>>::empty());
        while i < lines.len()
            invariant
                i <= lines.len(),
                all == texts(lines@),
                self@ == old(self)@.print_all(all.take(i as int)),
            decreases lines.len() - i,
        {
            self.print_plain(string_of(&lines[i]));
            assert(all.take(i + 1).drop_last() =~= all.take(i as int));
            i += 1;
        }
        assert(all.take(i as int) =~= all);
    }
}

} // verus!
