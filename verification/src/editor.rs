//! The line editor of the console: a buffer of code points and a cursor in it.

use vstd::prelude::*;

verus! {

/// Where the run of characters that ends before `end` begins, for the longest
/// such run in which every character is a blank (`blank`) or none is (`!blank`).
pub open spec fn run_start(s: Seq<char>, end: int, blank: bool) -> int
    decreases end,
{
    if 0 < end <= s.len() && (s[end - 1] == ' ') == blank {
        run_start(s, end - 1, blank)
    } else {
        end
    }
}

/// Where a word-wise deletion from `cursor` stops: before the blanks that end at
/// the cursor, and before the word that ends at those blanks.
pub open spec fn word_start(s: Seq<char>, cursor: int) -> int {
    run_start(s, run_start(s, cursor, true), false)
}

/// A run begins in the text and no later than it ends.
pub proof fn lemma_run_start_bounds(s: Seq<char>, end: int, blank: bool)
    requires
        0 <= end <= s.len(),
    ensures
        0 <= run_start(s, end, blank) <= end,
    decreases end,
{
    if 0 < end && (s[end - 1] == ' ') == blank {
        lemma_run_start_bounds(s, end - 1, blank);
    }
}

/// A text buffer addressed by code point, with a cursor between 0 and its length.
pub struct LineEditor {
    buffer: Vec<char>,
    cursor: usize,
}

/// Looks for the start of the run that ends before `end`.
fn find_run_start(buffer: &Vec<char>, end: usize, blank: bool) -> (start: usize)
    requires
        end <= buffer.len(),
    ensures
        start == run_start(buffer@, end as int, blank),
        start <= end,
{
    let mut at: usize = end;
    while at > 0 && (buffer[at - 1] == ' ') == blank
        invariant
            at <= end <= buffer.len(),
            run_start(buffer@, at as int, blank) == run_start(buffer@, end as int, blank),
        decreases at,
    {
        at -= 1;
    }
    at
}

/// The buffer without the characters from `from` up to `to`.
fn without_range(buffer: &Vec<char>, from: usize, to: usize) -> (rest: Vec<char>)
    requires
        from <= to <= buffer.len(),
    ensures
        rest@ == buffer@.take(from as int) + buffer@.skip(to as int),
{
    let mut rest: Vec<char> = Vec::new();
    let mut i: usize = 0;
    while i < from
        invariant
            i <= from <= to <= buffer.len(),
            rest@ == buffer@.take(i as int),
        decreases from - i,
    {
        rest.push(buffer[i]);
        assert(rest@ =~= buffer@.take(i + 1));
        i += 1;
    }
    let mut j: usize = to;
    while j < buffer.len()
        invariant
            from <= to <= j <= buffer.len(),
            rest@ == buffer@.take(from as int) + buffer@.subrange(to as int, j as int),
        decreases buffer.len() - j,
    {
        rest.push(buffer[j]);
        assert(rest@ =~= buffer@.take(from as int) + buffer@.subrange(to as int, j + 1));
        j += 1;
    }
    assert(buffer@.subrange(to as int, j as int) =~= buffer@.skip(to as int));
    rest
}

/// The buffer with `c` put in before index `at`.
fn with_inserted(buffer: &Vec<char>, at: usize, c: char) -> (longer: Vec<char>)
    requires
        at <= buffer.len(),
    ensures
        longer@ == buffer@.insert(at as int, c),
{
    let mut longer: Vec<char> = Vec::new();
    let mut i: usize = 0;
    while i < at
        invariant
            i <= at <= buffer.len(),
            longer@ == buffer@.take(i as int),
        decreases at - i,
    {
        longer.push(buffer[i]);
        assert(longer@ =~= buffer@.take(i + 1));
        i += 1;
    }
    longer.push(c);
    while i < buffer.len()
        invariant
            at <= i <= buffer.len(),
            longer@ == buffer@.take(at as int).push(c) + buffer@.subrange(at as int, i as int),
        decreases buffer.len() - i,
    {
        longer.push(buffer[i]);
        assert(longer@ =~= buffer@.take(at as int).push(c) + buffer@.subrange(
            at as int,
            i + 1,
        ));
        i += 1;
    }
    assert(longer@ =~= buffer@.insert(at as int, c));
    longer
}

impl LineEditor {
    #[verifier::type_invariant]
    spec fn cursor_in_text(&self) -> bool {
        self.cursor <= self.buffer@.len()
    }

    /// The code points of the buffer.
    pub closed spec fn text(&self) -> Seq<char> {
        self.buffer@
    }

    /// The cursor: the number of code points to its left.
    pub closed spec fn position(&self) -> int {
        self.cursor as int
    }

    /// An empty buffer.
    pub fn new() -> (editor: Self)
        ensures
            editor.text() == Seq::<char>::empty(),
            editor.position() == 0,
    {
        LineEditor { buffer: Vec::new(), cursor: 0 }
    }

    /// The buffer's code points.
    pub fn chars(&self) -> (chars: &Vec<char>)
        ensures
            chars@ == self.text(),
    {
        &self.buffer
    }

    /// The cursor, which never lies beyond the end of the text.
    pub fn cursor(&self) -> (cursor: usize)
        ensures
            cursor == self.position(),
            0 <= self.position() <= self.text().len(),
    {
        proof {
            use_type_invariant(self);
        }
        self.cursor
    }

    /// Puts `c` in at the cursor and moves the cursor behind it.
    pub fn insert(&mut self, c: char)
        ensures
            final(self).text() == old(self).text().insert(old(self).position(), c),
            final(self).position() == old(self).position() + 1,
    {
        proof {
            use_type_invariant(&*self);
        }
        let longer = with_inserted(&self.buffer, self.cursor, c);
        let length = longer.len();
        self.buffer = longer;
        assert(self.cursor < length);
        self.cursor += 1;
    }

    /// Removes the code point at the cursor; at the end of the text, does nothing.
    pub fn delete(&mut self)
        ensures
            final(self).position() == old(self).position(),
            final(self).text() == if old(self).position() < old(self).text().len() {
                old(self).text().remove(old(self).position())
            } else {
                old(self).text()
            },
    {
        proof {
            use_type_invariant(&*self);
        }
        if self.cursor < self.buffer.len() {
            let rest = without_range(&self.buffer, self.cursor, self.cursor + 1);
            assert(rest@ =~= self.buffer@.remove(self.cursor as int));
            self.buffer = rest;
        }
    }

    /// Removes what stands left of the cursor: one code point, or, word-wise, the
    /// blanks that end at the cursor and the word before them. At the start of
    /// the text, does nothing.
    pub fn backspace(&mut self, word: bool)
        ensures
            final(self).position() == if word {
                word_start(old(self).text(), old(self).position())
            } else if old(self).position() > 0 {
                old(self).position() - 1
            } else {
                0
            },
            0 <= final(self).position() <= old(self).position(),
            final(self).text() == old(self).text().take(final(self).position()) + old(
                self,
            ).text().skip(old(self).position()),
    {
        proof {
            use_type_invariant(&*self);
        }
        let end = self.cursor;
        let start = if word {
            let blanks = find_run_start(&self.buffer, end, true);
            find_run_start(&self.buffer, blanks, false)
        } else if end > 0 {
            end - 1
        } else {
            0
        };
        let rest = without_range(&self.buffer, start, end);
        self.cursor = start;
        self.buffer = rest;
    }

    /// Moves the cursor one code point to the left, if it is not at the start.
    pub fn left(&mut self)
        ensures
            final(self).text() == old(self).text(),
            final(self).position() == if old(self).position() > 0 {
                old(self).position() - 1
            } else {
                0
            },
    {
        proof {
            use_type_invariant(&*self);
        }
        if self.cursor > 0 {
            self.cursor -= 1;
        }
    }

    /// Moves the cursor one code point to the right, if it is not at the end.
    pub fn right(&mut self)
        ensures
            final(self).text() == old(self).text(),
            final(self).position() == if old(self).position() < old(self).text().len() {
                old(self).position() + 1
            } else {
                old(self).position()
            },
    {
        proof {
            use_type_invariant(&*self);
        }
        if self.cursor < self.buffer.len() {
            self.cursor += 1;
        }
    }

    /// Moves the cursor to the start of the text.
    pub fn home(&mut self)
        ensures
            final(self).text() == old(self).text(),
            final(self).position() == 0,
    {
        self.cursor = 0;
    }

    /// Moves the cursor behind the last code point.
    pub fn end(&mut self)
        ensures
            final(self).text() == old(self).text(),
            final(self).position() == old(self).text().len(),
    {
        self.cursor = self.buffer.len();
    }

    /// Empties the buffer.
    pub fn clear(&mut self)
        ensures
            final(self).text() == Seq::<char>::empty(),
            final(self).position() == 0,
    {
        self.cursor = 0;
        self.buffer = Vec::new();
    }
}

} // verus!
