//! The editing state machine: a buffer, and at most one of a completion preview and a
//! suggestion session, driven by actions.
use vstd::prelude::*;

use crate::completion::{chars_of_all, Completer, Suggester};
use crate::key_bindings::{Action, Direction, Range, Scope};
use crate::prompt::buffer::{
    find_word_end,
    lemma_delete_back_at_start,
    lemma_skip_back,
    lemma_skip_forward,
    lemma_target_in_bounds,
    lemma_writes_concatenate,
    word_end,
    Buffer,
    Line,
};

verus! {

/// What is shown besides the buffer: nothing, a completion to append, or a suggestion
/// session with its candidates and the index of the selected one.
pub enum Preview {
    Idle,
    Completing(Seq<char>),
    Suggesting(Seq<Seq<char>>, Option<nat>),
}

impl Preview {
    /// A completion is never empty, and a selected index lies among the candidates.
    pub open spec fn wf(self) -> bool {
        match self {
            Preview::Idle => true,
            Preview::Completing(p) => p.len() > 0,
            Preview::Suggesting(c, i) => i matches Some(k) ==> k < c.len(),
        }
    }
}

/// How a session stands after an action.
pub enum Outcome {
    Continue,
    Accepted(Seq<char>),
    Cancelled,
}

/// How a session stands after an action: it goes on, or it ended with the accepted text, or
/// it was cancelled.
#[derive(Debug, PartialEq, Eq)]
pub enum Status {
    Continue,
    Accepted(Vec<char>),
    Cancelled,
}

impl View for Status {
    type V = Outcome;

    open spec fn view(&self) -> Outcome {
        match self {
            Status::Continue => Outcome::Continue,
            Status::Accepted(t) => Outcome::Accepted(t@),
            Status::Cancelled => Outcome::Cancelled,
        }
    }
}

/// The preview for a buffer holding `text`: the completion that `completer` offers for it, if
/// there is a completer, the text is not empty and the completion is not empty.
pub open spec fn requery<C: Completer>(completer: Option<&C>, text: Seq<char>) -> Preview {
    match completer {
        Some(c) => if text.len() == 0 {
            Preview::Idle
        } else {
            match c.completion(text) {
                Some(p) => if p.len() > 0 {
                    Preview::Completing(p)
                } else {
                    Preview::Idle
                },
                None => Preview::Idle,
            }
        },
        None => Preview::Idle,
    }
}

/// The next selected index among `len` candidates: forward from the last wraps to the first,
/// backward from the first wraps to the last; with nothing selected yet, forward selects the
/// first and backward the last. Without candidates nothing is selected.
pub open spec fn cycle(len: nat, index: Option<nat>, direction: Direction) -> Option<nat> {
    if len == 0 {
        None
    } else {
        match (index, direction) {
            (None, Direction::Forward) => Some(0),
            (None, Direction::Backward) => Some((len - 1) as nat),
            (Some(i), Direction::Forward) => Some(if i + 1 >= len {
                0
            } else {
                i + 1
            }),
            (Some(i), Direction::Backward) => Some(if i == 0 {
                (len - 1) as nat
            } else {
                (i - 1) as nat
            }),
        }
    }
}

/// The part of a completion that a completion over `range` takes in: one character, up to
/// the end of its first word, or all of it.
pub open spec fn committed(preview: Seq<char>, range: Range) -> Seq<char> {
    match range {
        Range::Single => preview.subrange(0, if preview.len() == 0 {
            0
        } else {
            1
        }),
        Range::Word => preview.subrange(0, word_end(preview, 0) as int),
        Range::Line => preview,
    }
}

/// The text that accepting the line yields.
pub open spec fn accepted_text(line: Line, preview: Preview) -> Seq<char> {
    match preview {
        Preview::Completing(p) => line.written(p).text,
        Preview::Suggesting(c, Some(i)) => c[i as int],
        _ => line.text,
    }
}

/// The line, the preview and the outcome after `action`, for a session with `completer` and
/// `suggester` whose line and preview were `line` and `preview`.
pub open spec fn step<C: Completer, S: Suggester>(
    completer: Option<&C>,
    suggester: Option<&S>,
    line: Line,
    preview: Preview,
    action: Action,
) -> (Line, Preview, Outcome) {
    match action {
        Action::Write(c) => {
            let l = line.inserted(c);
            (l, requery(completer, l.text), Outcome::Continue)
        },
        Action::Delete(scope) => {
            let l = line.removed(scope);
            (l, requery(completer, l.text), Outcome::Continue)
        },
        Action::Move(range, direction) => {
            let l = line.moved(range, direction);
            (l, requery(completer, l.text), Outcome::Continue)
        },
        Action::Complete(range) => {
            let current = match preview {
                Preview::Completing(p) => Preview::Completing(p),
                _ => requery(completer, line.text),
            };
            match current {
                Preview::Completing(p) => {
                    let l = line.written(committed(p, range));
                    (l, requery(completer, l.text), Outcome::Continue)
                },
                _ => (line, Preview::Idle, Outcome::Continue),
            }
        },
        Action::Suggest(direction) => match preview {
            Preview::Suggesting(c, i) => (
                line,
                Preview::Suggesting(c, cycle(c.len(), i, direction)),
                Outcome::Continue,
            ),
            _ => match suggester {
                Some(s) => {
                    let c = s.suggestions(line.text);
                    (line, Preview::Suggesting(c, cycle(c.len(), None, direction)), Outcome::Continue)
                },
                None => (line, Preview::Idle, Outcome::Continue),
            },
        },
        Action::Accept => (
            Line::empty(),
            Preview::Idle,
            Outcome::Accepted(accepted_text(line, preview)),
        ),
        Action::Cancel => match preview {
            Preview::Suggesting(_, _) => (line, Preview::Idle, Outcome::Continue),
            _ => (Line::empty(), Preview::Idle, Outcome::Cancelled),
        },
        Action::Noop => (line, preview, Outcome::Continue),
    }
}

/// The line, the preview and the outcome of the last of `actions`, applied one after the
/// other; an empty list leaves things as they are.
pub open spec fn run<C: Completer, S: Suggester>(
    completer: Option<&C>,
    suggester: Option<&S>,
    line: Line,
    preview: Preview,
    actions: Seq<Action>,
) -> (Line, Preview)
    decreases actions.len(),
{
    if actions.len() == 0 {
        (line, preview)
    } else {
        let next = step(completer, suggester, line, preview, actions[0]);
        run(completer, suggester, next.0, next.1, actions.drop_first())
    }
}

/// A selected index, as a natural number.
spec fn index_of(i: Option<usize>) -> Option<nat> {
    match i {
        Some(k) => Some(k as nat),
        None => None,
    }
}

/// The line and the preview after writing each of `units`, one after the other, with
/// `Action::Write`.
pub open spec fn run_writes<C: Completer, S: Suggester>(
    completer: Option<&C>,
    suggester: Option<&S>,
    line: Line,
    preview: Preview,
    units: Seq<char>,
) -> (Line, Preview)
    decreases units.len(),
{
    if units.len() == 0 {
        (line, preview)
    } else {
        let next = step(completer, suggester, line, preview, Action::Write(units[0]));
        run_writes(completer, suggester, next.0, next.1, units.drop_first())
    }
}

/// Writing a character at a time, whatever the completer and the suggester, leaves exactly
/// the written characters in an empty buffer, with the cursor at their end.
pub proof fn lemma_writes_fill_line<C: Completer, S: Suggester>(
    completer: Option<&C>,
    suggester: Option<&S>,
    preview: Preview,
    units: Seq<char>,
)
    ensures
        run_writes(completer, suggester, Line::empty(), preview, units).0 == (Line { text: units, cursor: units.len() }),
{
    lemma_writes_run(completer, suggester, Line::empty(), preview, units);
    lemma_writes_concatenate(units);
}

/// Running write actions writes their characters at the cursor.
proof fn lemma_writes_run<C: Completer, S: Suggester>(
    completer: Option<&C>,
    suggester: Option<&S>,
    line: Line,
    preview: Preview,
    units: Seq<char>,
)
    ensures
        run_writes(completer, suggester, line, preview, units).0
            == line.written(units),
    decreases units.len(),
{
    if units.len() > 0 {
        let next = step(completer, suggester, line, preview, Action::Write(units[0]));
        lemma_writes_run(completer, suggester, next.0, next.1, units.drop_first());
    }
}

/// Writing keeps the cursor within the text.
proof fn lemma_written_wf(line: Line, units: Seq<char>)
    requires
        line.wf(),
    ensures
        line.written(units).wf(),
    decreases units.len(),
{
    if units.len() > 0 {
        lemma_written_wf(line.inserted(units[0]), units.drop_first());
    }
}

/// Every action keeps the cursor within the text and the preview well formed.
pub proof fn lemma_step_wf<C: Completer, S: Suggester>(
    completer: Option<&C>,
    suggester: Option<&S>,
    line: Line,
    preview: Preview,
    action: Action,
)
    requires
        line.wf(),
        preview.wf(),
    ensures
        step(completer, suggester, line, preview, action).0.wf(),
        step(completer, suggester, line, preview, action).1.wf(),
{
    match action {
        Action::Delete(scope) => {
            lemma_target_in_bounds(line, Range::Single, Direction::Backward);
            lemma_target_in_bounds(line, Range::Word, Direction::Backward);
            lemma_target_in_bounds(line, Range::Line, Direction::Backward);
            lemma_target_in_bounds(line, Range::Single, Direction::Forward);
            lemma_target_in_bounds(line, Range::Word, Direction::Forward);
            lemma_target_in_bounds(line, Range::Line, Direction::Forward);
            lemma_skip_back(line.text, line.cursor, false);
            lemma_skip_forward(line.text, line.cursor, false);
        },
        Action::Move(range, direction) => {
            lemma_target_in_bounds(line, range, direction);
        },
        Action::Complete(range) => {
            match preview {
                Preview::Completing(p) => lemma_written_wf(line, committed(p, range)),
                _ => match requery(completer, line.text) {
                    Preview::Completing(p) => lemma_written_wf(line, committed(p, range)),
                    _ => {},
                },
            }
        },
        _ => {},
    }
}

/// For any list of actions, from a well-formed state, the state stays well formed, and a
/// completion is never shown while a suggestion session is open.
pub proof fn lemma_modes_exclusive<C: Completer, S: Suggester>(
    completer: Option<&C>,
    suggester: Option<&S>,
    line: Line,
    preview: Preview,
    actions: Seq<Action>,
)
    requires
        line.wf(),
        preview.wf(),
    ensures
        run(completer, suggester, line, preview, actions).0.wf(),
        run(completer, suggester, line, preview, actions).1.wf(),
        !(run(completer, suggester, line, preview, actions).1 is Completing && run(
            completer,
            suggester,
            line,
            preview,
            actions,
        ).1 is Suggesting),
    decreases actions.len(),
{
    if actions.len() > 0 {
        lemma_step_wf(completer, suggester, line, preview, actions[0]);
        let next = step(completer, suggester, line, preview, actions[0]);
        lemma_modes_exclusive(completer, suggester, next.0, next.1, actions.drop_first());
    }
}

/// Cycling through open suggestions wraps around: forward from the last selects the first,
/// backward from the first selects the last.
pub proof fn lemma_cycle_wraps<C: Completer, S: Suggester>(
    completer: Option<&C>,
    suggester: Option<&S>,
    line: Line,
    candidates: Seq<Seq<char>>,
)
    requires
        candidates.len() > 0,
    ensures
        step(
            completer,
            suggester,
            line,
            Preview::Suggesting(candidates, Some((candidates.len() - 1) as nat)),
            Action::Suggest(Direction::Forward),
        ).1 == Preview::Suggesting(candidates, Some(0)),
        step(
            completer,
            suggester,
            line,
            Preview::Suggesting(candidates, Some(0)),
            Action::Suggest(Direction::Backward),
        ).1 == Preview::Suggesting(candidates, Some((candidates.len() - 1) as nat)),
{
}

/// A suggestion action never leaves a completion shown, whatever the completer and the
/// suggester: it clears the completion before any suggestion session starts.
pub proof fn lemma_suggest_clears_completion<C: Completer, S: Suggester>(
    completer: Option<&C>,
    suggester: Option<&S>,
    line: Line,
    preview: Preview,
    direction: Direction,
)
    ensures
        step(completer, suggester, line, preview, Action::Suggest(direction)).1 !is Completing,
{
}

/// A backward deletion at the start of the line leaves the line as it is.
pub proof fn lemma_delete_back_at_start_step<C: Completer, S: Suggester>(
    completer: Option<&C>,
    suggester: Option<&S>,
    line: Line,
    preview: Preview,
    range: Range,
)
    requires
        line.wf(),
        line.cursor == 0,
    ensures
        step(
            completer,
            suggester,
            line,
            preview,
            Action::Delete(Scope::Relative(range, Direction::Backward)),
        ).0 == line,
{
    lemma_delete_back_at_start(line, range);
}

enum Mode {
    Idle,
    Completing(Vec<char>),
    Suggesting(Vec<Vec<char>>, Option<usize>),
}

impl View for Mode {
    type V = Preview;

    closed spec fn view(&self) -> Preview {
        match self {
            Mode::Idle => Preview::Idle,
            Mode::Completing(p) => Preview::Completing(p@),
            Mode::Suggesting(c, i) => Preview::Suggesting(
                chars_of_all(c@),
                index_of(*i),
            ),
        }
    }
}

/// The part of `preview` that a completion over `range` takes in.
fn commit_part(preview: &Vec<char>, range: Range) -> (r: Vec<char>)
    ensures
        r@ == committed(preview@, range),
{
    let end: usize = match range {
        Range::Single => if preview.len() == 0 {
            0
        } else {
            1
        },
        Range::Word => find_word_end(preview.as_slice(), 0),
        Range::Line => preview.len(),
    };
    let mut out: Vec<char> = Vec::new();
    let mut i: usize = 0;
    while i < end
        invariant
            end <= preview@.len(),
            i <= end,
            out@ =~= preview@.subrange(0, i as int),
        decreases end - i,
    {
        out.push(preview[i]);
        i = i + 1;
    }
    assert(preview@.subrange(0, preview@.len() as int) =~= preview@);
    out
}

/// The next selected index, as `cycle` says.
fn next_index(len: usize, index: Option<usize>, direction: Direction) -> (r: Option<usize>)
    requires
        index matches Some(k) ==> k < len,
    ensures
        match r {
            Some(k) => cycle(len as nat, index_of(index), direction) == Some(
                k as nat,
            ) && k < len,
            None => cycle(len as nat, index_of(index), direction) is None,
        },
{
    if len == 0 {
        return None;
    }
    match (index, direction) {
        (None, Direction::Forward) => Some(0),
        (None, Direction::Backward) => Some(len - 1),
        (Some(i), Direction::Forward) => Some(if i + 1 >= len {
            0
        } else {
            i + 1
        }),
        (Some(i), Direction::Backward) => Some(if i == 0 {
            len - 1
        } else {
            i - 1
        }),
    }
}

/// An editing session: a buffer, and at most one of a completion preview and a suggestion
/// session, with the completer and the suggester it consults.
pub struct EditingContext<'a, C: Completer, S: Suggester> {
    buffer: Buffer,
    mode: Mode,
    completer: Option<&'a C>,
    suggester: Option<&'a S>,
}

impl<'a, C: Completer, S: Suggester> EditingContext<'a, C, S> {
    /// The buffer's text and cursor.
    pub closed spec fn line(&self) -> Line {
        self.buffer@
    }

    /// What is shown besides the buffer.
    pub closed spec fn preview(&self) -> Preview {
        self.mode@
    }

    /// The completer consulted, if any.
    pub closed spec fn completer(&self) -> Option<&'a C> {
        self.completer
    }

    /// The suggester consulted, if any.
    pub closed spec fn suggester(&self) -> Option<&'a S> {
        self.suggester
    }

    /// The cursor lies within the buffer, and the preview is well formed.
    pub closed spec fn wf(&self) -> bool {
        &&& self.buffer@.wf()
        &&& self.mode@.wf()
    }

    /// A well-formed session has its cursor within the text and a well-formed preview.
    pub proof fn lemma_wf(&self)
        requires
            self.wf(),
        ensures
            self.line().wf(),
            self.preview().wf(),
    {
    }

    /// What `action` leads to from the current state.
    pub open spec fn next(&self, action: Action) -> (Line, Preview, Outcome) {
        step(self.completer(), self.suggester(), self.line(), self.preview(), action)
    }

    /// A fresh session, with an empty buffer and nothing shown besides it.
    pub fn new(completer: Option<&'a C>, suggester: Option<&'a S>) -> (r: Self)
        ensures
            r.wf(),
            r.line() == Line::empty(),
            r.preview() == Preview::Idle,
            r.completer() == completer,
            r.suggester() == suggester,
    {
        EditingContext { buffer: Buffer::new(), mode: Mode::Idle, completer, suggester }
    }

    /// The buffer's characters.
    pub fn buffer(&self) -> (r: &[char])
        ensures
            r@ == self.line().text,
    {
        self.buffer.as_view()
    }

    /// The cursor's offset, in characters.
    pub fn cursor(&self) -> (r: usize)
        ensures
            r == self.line().cursor,
    {
        self.buffer.cursor()
    }

    /// The completion shown after the cursor, if any.
    pub fn completion(&self) -> (r: Option<&[char]>)
        ensures
            match r {
                Some(p) => self.preview() == Preview::Completing(p@),
                None => self.preview() !is Completing,
            },
    {
        match &self.mode {
            Mode::Completing(p) => Some(p.as_slice()),
            _ => None,
        }
    }

    /// The selected suggestion, shown in place of the buffer, if any.
    pub fn suggestion(&self) -> (r: Option<&[char]>)
        requires
            self.wf(),
        ensures
            match r {
                Some(t) => self.preview() matches Preview::Suggesting(c, Some(i)) && c[i as int]
                    == t@,
                None => !(self.preview() matches Preview::Suggesting(_, Some(_))),
            },
    {
        match &self.mode {
            Mode::Suggesting(c, Some(i)) => Some(c[*i].as_slice()),
            _ => None,
        }
    }

    /// Whether a suggestion session is open.
    pub fn is_suggesting(&self) -> (r: bool)
        ensures
            r == self.preview() is Suggesting,
    {
        match &self.mode {
            Mode::Suggesting(_, _) => true,
            _ => false,
        }
    }

    /// Sets the preview to what the completer offers for the current buffer.
    fn requery(&mut self)
        requires
            old(self).buffer@.wf(),
        ensures
            final(self).mode@ == requery(old(self).completer, old(self).buffer@.text),
            final(self).buffer == old(self).buffer,
            final(self).completer == old(self).completer,
            final(self).suggester == old(self).suggester,
    {
        self.mode = Mode::Idle;
        if let Some(c) = self.completer {
            if !self.buffer.is_empty() {
                if let Some(p) = c.complete_for(self.buffer.as_view()) {
                    if p.len() > 0 {
                        self.mode = Mode::Completing(p);
                    }
                }
            }
        }
    }

    /// Inserts `c` at the cursor; the suggestion session, if any, is dropped, and the
    /// completion is asked for anew.
    pub fn write(&mut self, c: char)
        requires
            old(self).wf(),
        ensures
            final(self).wf(),
            (final(self).line(), final(self).preview(), Outcome::Continue) == old(self).next(
                Action::Write(c),
            ),
            final(self).completer() == old(self).completer(),
            final(self).suggester() == old(self).suggester(),
    {
        self.buffer.insert(c);
        self.requery();
    }

    /// Deletes what `scope` covers; the suggestion session, if any, is dropped, and the
    /// completion is asked for anew.
    pub fn delete(&mut self, scope: Scope)
        requires
            old(self).wf(),
        ensures
            final(self).wf(),
            (final(self).line(), final(self).preview(), Outcome::Continue) == old(self).next(
                Action::Delete(scope),
            ),
            final(self).completer() == old(self).completer(),
            final(self).suggester() == old(self).suggester(),
    {
        self.buffer.remove(scope);
        self.requery();
    }

    /// Moves the cursor, and tells whether it changed position; the suggestion session, if
    /// any, is dropped, and the completion is asked for anew.
    pub fn move_cursor(&mut self, range: Range, direction: Direction) -> (moved: bool)
        requires
            old(self).wf(),
        ensures
            final(self).wf(),
            (final(self).line(), final(self).preview(), Outcome::Continue) == old(self).next(
                Action::Move(range, direction),
            ),
            moved == (final(self).line().cursor != old(self).line().cursor),
            final(self).completer() == old(self).completer(),
            final(self).suggester() == old(self).suggester(),
    {
        let moved = self.buffer.move_cursor(range, direction);
        self.requery();
        moved
    }

    /// Takes in the part of the completion that `range` covers, asking for a completion
    /// first where none is shown, then asks for the completion anew.
    pub fn complete(&mut self, range: Range)
        requires
            old(self).wf(),
        ensures
            final(self).wf(),
            (final(self).line(), final(self).preview(), Outcome::Continue) == old(self).next(
                Action::Complete(range),
            ),
            final(self).completer() == old(self).completer(),
            final(self).suggester() == old(self).suggester(),
    {
        match &self.mode {
            Mode::Completing(_) => {},
            _ => self.requery(),
        }
        let part = match &self.mode {
            Mode::Completing(p) => Some(commit_part(p, range)),
            _ => None,
        };
        match part {
            Some(part) => {
                self.buffer.insert_all(part.as_slice());
                self.requery();
            },
            None => {
                self.mode = Mode::Idle;
            },
        }
    }

    /// Cycles through the suggestions in `direction`, opening a session with the suggester's
    /// candidates first where none is open. A completion shown is cleared in any case.
    pub fn suggest(&mut self, direction: Direction)
        requires
            old(self).wf(),
        ensures
            final(self).wf(),
            (final(self).line(), final(self).preview(), Outcome::Continue) == old(self).next(
                Action::Suggest(direction),
            ),
            final(self).completer() == old(self).completer(),
            final(self).suggester() == old(self).suggester(),
    {
        match &mut self.mode {
            Mode::Suggesting(c, i) => {
                *i = next_index(c.len(), *i, direction);
                return ;
            },
            _ => {},
        }
        self.mode = Mode::Idle;
        if let Some(s) = self.suggester {
            let c = s.suggest_for(self.buffer.as_view());
            let n = next_index(c.len(), None, direction);
            self.mode = Mode::Suggesting(c, n);
        }
    }

    /// Closes the suggestion session and keeps editing, or, where none is open, ends the
    /// session without input.
    pub fn cancel(&mut self) -> (r: Status)
        requires
            old(self).wf(),
        ensures
            final(self).wf(),
            (final(self).line(), final(self).preview(), r@) == old(self).next(Action::Cancel),
            final(self).completer() == old(self).completer(),
            final(self).suggester() == old(self).suggester(),
    {
        match &self.mode {
            Mode::Suggesting(_, _) => {
                self.mode = Mode::Idle;
                Status::Continue
            },
            _ => {
                self.buffer = Buffer::new();
                self.mode = Mode::Idle;
                Status::Cancelled
            },
        }
    }

    /// Ends the session with the buffer's text, after taking in the completion or the
    /// selected suggestion, if any.
    pub fn accept(&mut self) -> (r: Status)
        requires
            old(self).wf(),
        ensures
            final(self).wf(),
            (final(self).line(), final(self).preview(), r@) == old(self).next(Action::Accept),
            final(self).completer() == old(self).completer(),
            final(self).suggester() == old(self).suggester(),
    {
        match &self.mode {
            Mode::Completing(p) => {
                self.buffer.insert_all(p.as_slice());
            },
            Mode::Suggesting(c, Some(i)) => {
                self.buffer.set(c[*i].as_slice());
            },
            _ => {},
        }
        self.mode = Mode::Idle;
        let text = copy_of(self.buffer.as_view());
        self.buffer = Buffer::new();
        Status::Accepted(text)
    }

    /// Applies `action`, and tells how the session stands.
    pub fn apply(&mut self, action: Action) -> (r: Status)
        requires
            old(self).wf(),
        ensures
            final(self).wf(),
            (final(self).line(), final(self).preview(), r@) == old(self).next(action),
            final(self).completer() == old(self).completer(),
            final(self).suggester() == old(self).suggester(),
    {
        match action {
            Action::Write(c) => {
                self.write(c);
                Status::Continue
            },
            Action::Delete(scope) => {
                self.delete(scope);
                Status::Continue
            },
            Action::Move(range, direction) => {
                self.move_cursor(range, direction);
                Status::Continue
            },
            Action::Complete(range) => {
                self.complete(range);
                Status::Continue
            },
            Action::Suggest(direction) => {
                self.suggest(direction);
                Status::Continue
            },
            Action::Accept => self.accept(),
            Action::Cancel => self.cancel(),
            Action::Noop => Status::Continue,
        }
    }
}

/// A copy of `s`.
fn copy_of(s: &[char]) -> (r: Vec<char>)
    ensures
        r@ == s@,
{
    let mut out: Vec<char> = Vec::new();
    let mut i: usize = 0;
    while i < s.len()
        invariant
            i <= s@.len(),
            out@ =~= s@.subrange(0, i as int),
        decreases s@.len() - i,
    {
        out.push(s[i]);
        i = i + 1;
    }
    assert(s@.subrange(0, s@.len() as int) =~= s@);
    out
}

} // verus!
