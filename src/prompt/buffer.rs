//! The text buffer and its cursor.
//!
//! Positions are counted in Unicode scalar values, never in bytes. The cursor moves at that
//! granularity too: grapheme clusters are not taken into account.
use vstd::prelude::*;

use crate::key_bindings::{Direction, Range, Scope};

verus! {

/// Unicode's `White_Space` property.
pub open spec fn whitespace(c: char) -> bool {
    let n = c as u32;
    ||| 0x09 <= n <= 0x0D
    ||| n == 0x20
    ||| n == 0x85
    ||| n == 0xA0
    ||| n == 0x1680
    ||| 0x2000 <= n <= 0x200A
    ||| n == 0x2028
    ||| n == 0x2029
    ||| n == 0x202F
    ||| n == 0x205F
    ||| n == 0x3000
}

/// Whether `c` is whitespace in the sense of Unicode's `White_Space` property.
pub fn is_whitespace(c: char) -> (r: bool)
    ensures
        r == whitespace(c),
{
    let n = c as u32;
    (0x09 <= n && n <= 0x0D) || n == 0x20 || n == 0x85 || n == 0xA0 || n == 0x1680 || (0x2000
        <= n && n <= 0x200A) || n == 0x2028 || n == 0x2029 || n == 0x202F || n == 0x205F || n
        == 0x3000
}

/// Steps back from `i` over the characters whose whiteness is `space`.
pub open spec fn skip_back(text: Seq<char>, i: nat, space: bool) -> nat
    decreases i,
{
    if i == 0 || i > text.len() {
        i
    } else if whitespace(text[i - 1]) == space {
        skip_back(text, (i - 1) as nat, space)
    } else {
        i
    }
}

/// Steps forward from `i` over the characters whose whiteness is `space`.
pub open spec fn skip_forward(text: Seq<char>, i: nat, space: bool) -> nat
    decreases text.len() - i,
{
    if i >= text.len() {
        i
    } else if whitespace(text[i as int]) == space {
        skip_forward(text, i + 1, space)
    } else {
        i
    }
}

/// The start of the word before `i`: whitespace is skipped first, then the word.
pub open spec fn word_start(text: Seq<char>, i: nat) -> nat {
    skip_back(text, skip_back(text, i, true), false)
}

/// The end of the word after `i`: whitespace is skipped first, then the word.
pub open spec fn word_end(text: Seq<char>, i: nat) -> nat {
    skip_forward(text, skip_forward(text, i, true), false)
}

/// Whether a word starts at `i`: a non-whitespace character at the start of the text or
/// after whitespace.
pub open spec fn is_word_start(text: Seq<char>, i: nat) -> bool {
    &&& i < text.len()
    &&& !whitespace(text[i as int])
    &&& (i == 0 || whitespace(text[i - 1]))
}

/// The abstract state of a buffer: its text and its cursor.
pub struct Line {
    pub text: Seq<char>,
    pub cursor: nat,
}

impl Line {
    pub open spec fn empty() -> Line {
        Line { text: Seq::empty(), cursor: 0 }
    }

    /// The cursor lies within the text, or just after it.
    pub open spec fn wf(self) -> bool {
        self.cursor <= self.text.len()
    }

    /// `c` put at the cursor, and the cursor just after it.
    pub open spec fn inserted(self, c: char) -> Line {
        Line { text: self.text.insert(self.cursor as int, c), cursor: self.cursor + 1 }
    }

    /// Where the cursor goes when moved over `range` in direction `direction`.
    pub open spec fn target(self, range: Range, direction: Direction) -> nat {
        match (range, direction) {
            (Range::Single, Direction::Backward) => if self.cursor == 0 {
                0
            } else {
                (self.cursor - 1) as nat
            },
            (Range::Single, Direction::Forward) => if self.cursor >= self.text.len() {
                self.cursor
            } else {
                self.cursor + 1
            },
            (Range::Word, Direction::Backward) => word_start(self.text, self.cursor),
            (Range::Word, Direction::Forward) => word_end(self.text, self.cursor),
            (Range::Line, Direction::Backward) => 0,
            (Range::Line, Direction::Forward) => self.text.len(),
        }
    }

    /// The line after the cursor was moved over `range` in direction `direction`.
    pub open spec fn moved(self, range: Range, direction: Direction) -> Line {
        Line { text: self.text, cursor: self.target(range, direction) }
    }

    /// The span of text, start and end, that a deletion of `scope` removes.
    pub open spec fn span(self, scope: Scope) -> (nat, nat) {
        match scope {
            Scope::Relative(range, Direction::Backward) => (
                self.target(range, Direction::Backward),
                self.cursor,
            ),
            Scope::Relative(range, Direction::Forward) => (
                self.cursor,
                self.target(range, Direction::Forward),
            ),
            Scope::WholeWord => (
                skip_back(self.text, self.cursor, false),
                skip_forward(self.text, self.cursor, false),
            ),
            Scope::WholeLine => (0, self.text.len()),
        }
    }

    /// The text between `start` and `end` taken out, and the cursor where it began.
    pub open spec fn cut(self, start: nat, end: nat) -> Line {
        Line {
            text: self.text.subrange(0, start as int) + self.text.subrange(
                end as int,
                self.text.len() as int,
            ),
            cursor: start,
        }
    }

    /// The line after a deletion of `scope`.
    pub open spec fn removed(self, scope: Scope) -> Line {
        self.cut(self.span(scope).0, self.span(scope).1)
    }

    /// `units` written one after the other at the cursor.
    pub open spec fn written(self, units: Seq<char>) -> Line
        decreases units.len(),
    {
        if units.len() == 0 {
            self
        } else {
            self.inserted(units[0]).written(units.drop_first())
        }
    }
}

/// The facts that `skip_back` establishes: it stays within the text, everything it skipped
/// has whiteness `space`, and it stops at the start or before a character that does not.
pub proof fn lemma_skip_back(text: Seq<char>, i: nat, space: bool)
    requires
        i <= text.len(),
    ensures
        skip_back(text, i, space) <= i,
        forall|k: int|
            skip_back(text, i, space) <= k < i ==> #[trigger] whitespace(text[k]) == space,
        skip_back(text, i, space) == 0 || whitespace(text[skip_back(text, i, space) - 1])
            != space,
    decreases i,
{
    if i > 0 && whitespace(text[i - 1]) == space {
        lemma_skip_back(text, (i - 1) as nat, space);
    }
}

/// The facts that `skip_forward` establishes, as for `skip_back`.
pub proof fn lemma_skip_forward(text: Seq<char>, i: nat, space: bool)
    requires
        i <= text.len(),
    ensures
        i <= skip_forward(text, i, space) <= text.len(),
        forall|k: int|
            i <= k < skip_forward(text, i, space) ==> #[trigger] whitespace(text[k]) == space,
        skip_forward(text, i, space) == text.len() || whitespace(
            text[skip_forward(text, i, space) as int],
        ) != space,
    decreases text.len() - i,
{
    if i < text.len() && whitespace(text[i as int]) == space {
        lemma_skip_forward(text, i + 1, space);
    }
}

/// Stepping back over a run of characters of whiteness `space` that begins at `lo` stops at
/// `lo`.
pub proof fn lemma_skip_back_over(text: Seq<char>, lo: nat, hi: nat, space: bool)
    requires
        lo <= hi <= text.len(),
        forall|k: int| lo <= k < hi ==> #[trigger] whitespace(text[k]) == space,
        lo == 0 || whitespace(text[lo - 1]) != space,
    ensures
        skip_back(text, hi, space) == lo,
    decreases hi - lo,
{
    if hi > lo {
        lemma_skip_back_over(text, lo, (hi - 1) as nat, space);
    }
}

/// Every move keeps the cursor within the text.
pub proof fn lemma_target_in_bounds(line: Line, range: Range, direction: Direction)
    requires
        line.wf(),
    ensures
        line.target(range, direction) <= line.text.len(),
        direction == Direction::Backward ==> line.target(range, direction) <= line.cursor,
        direction == Direction::Forward ==> line.cursor <= line.target(range, direction),
{
    lemma_skip_back(line.text, line.cursor, true);
    lemma_skip_back(line.text, skip_back(line.text, line.cursor, true), false);
    lemma_skip_forward(line.text, line.cursor, true);
    lemma_skip_forward(line.text, skip_forward(line.text, line.cursor, true), false);
}

/// Writing a sequence of characters into an empty line yields exactly those characters,
/// with the cursor after the last of them.
pub proof fn lemma_writes_concatenate(units: Seq<char>)
    ensures
        Line::empty().written(units) == (Line { text: units, cursor: units.len() }),
{
    lemma_written_at_end(Line::empty(), units);
    assert(Seq::<char>::empty() + units =~= units);
}

/// Writing at the end of a line appends to it and leaves the cursor at the end.
pub proof fn lemma_written_at_end(line: Line, units: Seq<char>)
    requires
        line.cursor == line.text.len(),
    ensures
        line.written(units) == (Line {
            text: line.text + units,
            cursor: line.text.len() + units.len(),
        }),
    decreases units.len(),
{
    if units.len() > 0 {
        let next = line.inserted(units[0]);
        assert(next.text =~= line.text.push(units[0]));
        lemma_written_at_end(next, units.drop_first());
        assert(next.text + units.drop_first() =~= line.text + units);
    } else {
        assert(line.text + units =~= line.text);
    }
}

/// From the start of a word, moving one word forward and then one word back returns the
/// cursor to where it was.
pub proof fn lemma_word_round_trip(line: Line)
    requires
        line.wf(),
        is_word_start(line.text, line.cursor),
    ensures
        line.moved(Range::Word, Direction::Forward).moved(Range::Word, Direction::Backward)
            == line,
{
    let text = line.text;
    let c = line.cursor;
    assert(skip_forward(text, c, true) == c);
    lemma_skip_forward(text, c, false);
    let e = skip_forward(text, c, false);
    assert(e > c);
    assert(skip_back(text, e, true) == e);
    lemma_skip_back_over(text, c, e, false);
}

/// A backward deletion at the start of the line changes nothing.
pub proof fn lemma_delete_back_at_start(line: Line, range: Range)
    requires
        line.wf(),
        line.cursor == 0,
    ensures
        line.removed(Scope::Relative(range, Direction::Backward)) == line,
{
    lemma_target_in_bounds(line, range, Direction::Backward);
    assert(line.text.subrange(0, 0) + line.text.subrange(0, line.text.len() as int)
        =~= line.text);
}

/// The exec counterpart of `skip_back`.
fn skip_back_in(text: &[char], i: usize, space: bool) -> (r: usize)
    requires
        i <= text@.len(),
    ensures
        r == skip_back(text@, i as nat, space),
{
    let mut j: usize = i;
    while j > 0 && is_whitespace(text[j - 1]) == space
        invariant
            j <= i,
            i <= text@.len(),
            skip_back(text@, j as nat, space) == skip_back(text@, i as nat, space),
        decreases j,
    {
        j = j - 1;
    }
    j
}

/// The exec counterpart of `skip_forward`.
fn skip_forward_in(text: &[char], i: usize, space: bool) -> (r: usize)
    requires
        i <= text@.len(),
    ensures
        r == skip_forward(text@, i as nat, space),
{
    let mut j: usize = i;
    while j < text.len() && is_whitespace(text[j]) == space
        invariant
            i <= j <= text@.len(),
            skip_forward(text@, j as nat, space) == skip_forward(text@, i as nat, space),
        decreases text@.len() - j,
    {
        j = j + 1;
    }
    j
}

/// The end of the word after offset `i` of `text`.
pub fn find_word_end(text: &[char], i: usize) -> (r: usize)
    requires
        i <= text@.len(),
    ensures
        r == word_end(text@, i as nat),
        i <= r <= text@.len(),
{
    proof {
        lemma_skip_forward(text@, i as nat, true);
        lemma_skip_forward(text@, skip_forward(text@, i as nat, true), false);
    }
    let j = skip_forward_in(text, i, true);
    skip_forward_in(text, j, false)
}

/// A text buffer with a cursor.
pub struct Buffer {
    chars: Vec<char>,
    cursor: usize,
}

impl View for Buffer {
    type V = Line;

    closed spec fn view(&self) -> Line {
        Line { text: self.chars@, cursor: self.cursor as nat }
    }
}

impl Buffer {
    /// An empty buffer.
    pub fn new() -> (b: Buffer)
        ensures
            b@ == Line::empty(),
    {
        Buffer { chars: Vec::new(), cursor: 0 }
    }

    /// The characters of the buffer.
    pub fn as_view(&self) -> (r: &[char])
        ensures
            r@ == self@.text,
    {
        self.chars.as_slice()
    }

    /// The cursor's offset, in characters.
    pub fn cursor(&self) -> (r: usize)
        ensures
            r == self@.cursor,
    {
        self.cursor
    }

    /// The number of characters in the buffer.
    pub fn len(&self) -> (r: usize)
        ensures
            r == self@.text.len(),
    {
        self.chars.len()
    }

    /// Whether the buffer holds no character.
    pub fn is_empty(&self) -> (r: bool)
        ensures
            r == (self@.text.len() == 0),
    {
        self.chars.len() == 0
    }

    /// Puts `c` at the cursor and advances the cursor past it.
    pub fn insert(&mut self, c: char)
        requires
            old(self)@.wf(),
        ensures
            final(self)@ == old(self)@.inserted(c),
            final(self)@.wf(),
    {
        self.chars.insert(self.cursor, c);
        let n = self.chars.len();
        assert(self.cursor < n);
        self.cursor = self.cursor + 1;
    }

    /// Puts each of `units` at the cursor, in order.
    pub fn insert_all(&mut self, units: &[char])
        requires
            old(self)@.wf(),
        ensures
            final(self)@ == old(self)@.written(units@),
            final(self)@.wf(),
    {
        let mut i: usize = 0;
        assert(units@.subrange(0, units@.len() as int) =~= units@);
        while i < units.len()
            invariant
                i <= units@.len(),
                self@.wf(),
                self@.written(units@.subrange(i as int, units@.len() as int)) == old(
                    self,
                )@.written(units@),
            decreases units@.len() - i,
        {
            let ghost rest = units@.subrange(i as int, units@.len() as int);
            assert(rest.drop_first() =~= units@.subrange(i + 1, units@.len() as int));
            self.insert(units[i]);
            i = i + 1;
        }
        assert(units@.subrange(i as int, units@.len() as int) =~= Seq::<char>::empty());
    }

    /// Replaces the whole content, and puts the cursor at its end.
    pub fn set(&mut self, units: &[char])
        ensures
            final(self)@ == (Line { text: units@, cursor: units@.len() }),
    {
        let mut chars: Vec<char> = Vec::new();
        let mut i: usize = 0;
        while i < units.len()
            invariant
                i <= units@.len(),
                chars@ =~= units@.subrange(0, i as int),
            decreases units@.len() - i,
        {
            chars.push(units[i]);
            i = i + 1;
        }
        assert(units@.subrange(0, units@.len() as int) =~= units@);
        self.chars = chars;
        self.cursor = self.chars.len();
    }

    fn target(&self, range: Range, direction: Direction) -> (r: usize)
        requires
            self@.wf(),
        ensures
            r == self@.target(range, direction),
    {
        match (range, direction) {
            (Range::Single, Direction::Backward) => if self.cursor == 0 {
                0
            } else {
                self.cursor - 1
            },
            (Range::Single, Direction::Forward) => if self.cursor >= self.chars.len() {
                self.cursor
            } else {
                self.cursor + 1
            },
            (Range::Word, Direction::Backward) => {
                proof {
                    lemma_skip_back(self@.text, self@.cursor, true);
                }
                let i = skip_back_in(self.chars.as_slice(), self.cursor, true);
                skip_back_in(self.chars.as_slice(), i, false)
            },
            (Range::Word, Direction::Forward) => {
                proof {
                    lemma_skip_forward(self@.text, self@.cursor, true);
                }
                let i = skip_forward_in(self.chars.as_slice(), self.cursor, true);
                skip_forward_in(self.chars.as_slice(), i, false)
            },
            (Range::Line, Direction::Backward) => 0,
            (Range::Line, Direction::Forward) => self.chars.len(),
        }
    }

    /// Moves the cursor over `range` in direction `direction`, clamped to the buffer's
    /// edges, and tells whether it changed position.
    pub fn move_cursor(&mut self, range: Range, direction: Direction) -> (moved: bool)
        requires
            old(self)@.wf(),
        ensures
            final(self)@ == old(self)@.moved(range, direction),
            final(self)@.wf(),
            moved == (final(self)@.cursor != old(self)@.cursor),
    {
        proof {
            lemma_target_in_bounds(self@, range, direction);
        }
        let to = self.target(range, direction);
        let moved = to != self.cursor;
        self.cursor = to;
        moved
    }

    /// Deletes the text that `scope` covers, clamped to the buffer's edges, and returns the
    /// span, start and end, that was removed. At an edge the span is empty.
    pub fn remove(&mut self, scope: Scope) -> (span: (usize, usize))
        requires
            old(self)@.wf(),
        ensures
            span.0 == old(self)@.span(scope).0,
            span.1 == old(self)@.span(scope).1,
            final(self)@ == old(self)@.removed(scope),
            final(self)@.wf(),
    {
        let (start, end) = match scope {
            Scope::Relative(range, Direction::Backward) => {
                proof {
                    lemma_target_in_bounds(self@, range, Direction::Backward);
                }
                (self.target(range, Direction::Backward), self.cursor)
            },
            Scope::Relative(range, Direction::Forward) => {
                proof {
                    lemma_target_in_bounds(self@, range, Direction::Forward);
                }
                (self.cursor, self.target(range, Direction::Forward))
            },
            Scope::WholeWord => {
                proof {
                    lemma_skip_back(self@.text, self@.cursor, false);
                    lemma_skip_forward(self@.text, self@.cursor, false);
                }
                (skip_back_in(self.chars.as_slice(), self.cursor, false), skip_forward_in(self.chars.as_slice(), self.cursor, false))
            },
            Scope::WholeLine => (0, self.chars.len()),
        };
        let ghost before = self@;
        let mut kept: Vec<char> = Vec::new();
        let mut i: usize = 0;
        while i < start
            invariant
                start <= end <= self@.text.len(),
                i <= start,
                kept@ =~= self@.text.subrange(0, i as int),
            decreases start - i,
        {
            kept.push(self.chars[i]);
            i = i + 1;
        }
        let mut j: usize = end;
        while j < self.chars.len()
            invariant
                start <= end <= j <= self@.text.len(),
                kept@ =~= self@.text.subrange(0, start as int) + self@.text.subrange(
                    end as int,
                    j as int,
                ),
            decreases self@.text.len() - j,
        {
            kept.push(self.chars[j]);
            j = j + 1;
        }
        self.chars = kept;
        self.cursor = start;
        (start, end)
    }
}

} // verus!
