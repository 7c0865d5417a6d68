//! The vocabulary of editing actions that a key press resolves to.
use vstd::prelude::*;

verus! {

/// Which way a movement or a deletion goes, relative to the cursor.
#[derive(Clone, Copy, Debug, PartialEq, Eq, Structural)]
pub enum Direction {
    Forward,
    Backward,
}

/// How far a movement, a deletion or a completion reaches.
#[derive(Clone, Copy, Debug, PartialEq, Eq, Structural)]
pub enum Range {
    /// One character.
    Single,
    /// Up to the next word boundary.
    Word,
    /// Up to the start or the end of the line.
    Line,
}

/// What a deletion removes.
#[derive(Clone, Copy, Debug, PartialEq, Eq, Structural)]
pub enum Scope {
    /// From the cursor, over the given range, in the given direction.
    Relative(Range, Direction),
    /// The run of non-whitespace characters around the cursor.
    WholeWord,
    /// The whole line.
    WholeLine,
}

/// An editing action, as produced from a key press.
#[derive(Clone, Copy, Debug, PartialEq, Eq, Structural)]
pub enum Action {
    Write(char),
    Delete(Scope),
    Move(Range, Direction),
    Complete(Range),
    Suggest(Direction),
    Accept,
    Cancel,
    Noop,
}

/// A key, as the event source reports it.
#[derive(Clone, Copy, Debug, PartialEq, Eq, Structural)]
pub enum KeyCode {
    Char(char),
    Enter,
    Tab,
    BackTab,
    Backspace,
    Delete,
    Left,
    Right,
    Up,
    Down,
    Home,
    End,
    Esc,
}

/// A key press, with the modifiers held.
#[derive(Clone, Copy, Debug, PartialEq, Eq, Structural)]
pub struct Event {
    pub code: KeyCode,
    pub control: bool,
    pub alt: bool,
}

impl Event {
    /// A key pressed without modifiers.
    pub fn from(code: KeyCode) -> (r: Event)
        ensures
            r == (Event { code, control: false, alt: false }),
    {
        Event { code, control: false, alt: false }
    }
}

/// The action bound to `event` by default.
pub open spec fn default_binding(event: Event) -> Action {
    match (event.code, event.control, event.alt) {
        (KeyCode::Char(c), false, false) => Action::Write(c),
        (KeyCode::Char('w'), true, false) => Action::Delete(Scope::WholeWord),
        (KeyCode::Char('j'), true, false) => Action::Delete(
            Scope::Relative(Range::Word, Direction::Backward),
        ),
        (KeyCode::Char('k'), true, false) => Action::Delete(
            Scope::Relative(Range::Word, Direction::Forward),
        ),
        (KeyCode::Char('u'), true, false) => Action::Delete(Scope::WholeLine),
        (KeyCode::Char('h'), true, false) => Action::Delete(
            Scope::Relative(Range::Line, Direction::Backward),
        ),
        (KeyCode::Char('l'), true, false) => Action::Delete(
            Scope::Relative(Range::Line, Direction::Forward),
        ),
        (KeyCode::Char('c'), true, false) => Action::Cancel,
        (KeyCode::Enter, _, _) => Action::Accept,
        (KeyCode::Esc, _, _) => Action::Cancel,
        (KeyCode::Tab, _, _) => Action::Suggest(Direction::Forward),
        (KeyCode::BackTab, _, _) => Action::Suggest(Direction::Backward),
        (KeyCode::Backspace, _, _) => Action::Delete(
            Scope::Relative(Range::Single, Direction::Backward),
        ),
        (KeyCode::Delete, _, _) => Action::Delete(
            Scope::Relative(Range::Single, Direction::Forward),
        ),
        (KeyCode::Left, true, _) => Action::Move(Range::Word, Direction::Backward),
        (KeyCode::Left, false, _) => Action::Move(Range::Single, Direction::Backward),
        (KeyCode::Right, true, _) => Action::Move(Range::Word, Direction::Forward),
        (KeyCode::Right, false, true) => Action::Complete(Range::Word),
        (KeyCode::Right, false, false) => Action::Move(Range::Single, Direction::Forward),
        (KeyCode::Down, _, _) => Action::Complete(Range::Line),
        (KeyCode::Home, _, _) => Action::Move(Range::Line, Direction::Backward),
        (KeyCode::End, _, _) => Action::Move(Range::Line, Direction::Forward),
        _ => Action::Noop,
    }
}

/// The action bound to `event` by default.
pub fn default_action(event: Event) -> (r: Action)
    ensures
        r == default_binding(event),
{
    match (event.code, event.control, event.alt) {
        (KeyCode::Char(c), false, false) => Action::Write(c),
        (KeyCode::Char('w'), true, false) => Action::Delete(Scope::WholeWord),
        (KeyCode::Char('j'), true, false) => Action::Delete(
            Scope::Relative(Range::Word, Direction::Backward),
        ),
        (KeyCode::Char('k'), true, false) => Action::Delete(
            Scope::Relative(Range::Word, Direction::Forward),
        ),
        (KeyCode::Char('u'), true, false) => Action::Delete(Scope::WholeLine),
        (KeyCode::Char('h'), true, false) => Action::Delete(
            Scope::Relative(Range::Line, Direction::Backward),
        ),
        (KeyCode::Char('l'), true, false) => Action::Delete(
            Scope::Relative(Range::Line, Direction::Forward),
        ),
        (KeyCode::Char('c'), true, false) => Action::Cancel,
        (KeyCode::Enter, _, _) => Action::Accept,
        (KeyCode::Esc, _, _) => Action::Cancel,
        (KeyCode::Tab, _, _) => Action::Suggest(Direction::Forward),
        (KeyCode::BackTab, _, _) => Action::Suggest(Direction::Backward),
        (KeyCode::Backspace, _, _) => Action::Delete(
            Scope::Relative(Range::Single, Direction::Backward),
        ),
        (KeyCode::Delete, _, _) => Action::Delete(
            Scope::Relative(Range::Single, Direction::Forward),
        ),
        (KeyCode::Left, true, _) => Action::Move(Range::Word, Direction::Backward),
        (KeyCode::Left, false, _) => Action::Move(Range::Single, Direction::Backward),
        (KeyCode::Right, true, _) => Action::Move(Range::Word, Direction::Forward),
        (KeyCode::Right, false, true) => Action::Complete(Range::Word),
        (KeyCode::Right, false, false) => Action::Move(Range::Single, Direction::Forward),
        (KeyCode::Down, _, _) => Action::Complete(Range::Line),
        (KeyCode::Home, _, _) => Action::Move(Range::Line, Direction::Backward),
        (KeyCode::End, _, _) => Action::Move(Range::Line, Direction::Forward),
        _ => Action::Noop,
    }
}

/// The action that the last of `entries` made for `event` names, if any.
pub open spec fn lookup(entries: Seq<(Event, Action)>, event: Event) -> Option<Action>
    decreases entries.len(),
{
    if entries.len() == 0 {
        None
    } else if entries.last().0 == event {
        Some(entries.last().1)
    } else {
        lookup(entries.drop_last(), event)
    }
}

/// Bindings of key presses to actions, overriding the default ones.
pub struct KeyBindings {
    entries: Vec<(Event, Action)>,
}

impl KeyBindings {
    /// The action bound to `event`, if any.
    pub closed spec fn binding(&self, event: Event) -> Option<Action> {
        lookup(self.entries@, event)
    }

    /// No binding at all.
    pub fn new() -> (r: KeyBindings)
        ensures
            forall|e: Event| r.binding(e) is None,
    {
        KeyBindings { entries: Vec::new() }
    }

    /// Binds `event` to `action`, in place of any earlier binding of `event`.
    pub fn insert(&mut self, event: Event, action: Action)
        ensures
            final(self).binding(event) == Some(action),
            forall|e: Event| e != event ==> final(self).binding(e) == old(self).binding(e),
    {
        let ghost before = self.entries@;
        self.entries.push((event, action));
        assert(self.entries@.drop_last() =~= before);
    }

    /// The action bound to `event`, if any.
    pub fn get(&self, event: Event) -> (r: Option<Action>)
        ensures
            r == self.binding(event),
    {
        let mut i: usize = self.entries.len();
        assert(self.entries@.subrange(0, i as int) =~= self.entries@);
        while i > 0
            invariant
                i <= self.entries@.len(),
                lookup(self.entries@, event) == lookup(self.entries@.subrange(0, i as int), event),
            decreases i,
        {
            let ghost prefix = self.entries@.subrange(0, i as int);
            assert(prefix.drop_last() =~= self.entries@.subrange(0, i - 1));
            let (e, a) = self.entries[i - 1];
            if e == event {
                return Some(a);
            }
            i = i - 1;
        }
        None
    }
}

/// The action for `event`: the one `bindings` gives it, if any, else the default one.
pub fn action_for(bindings: Option<&KeyBindings>, event: Event) -> (r: Action)
    ensures
        r == match bindings {
            Some(b) => match b.binding(event) {
                Some(a) => a,
                None => default_binding(event),
            },
            None => default_binding(event),
        },
{
    match bindings {
        Some(b) => match b.get(event) {
            Some(a) => a,
            None => default_action(event),
        },
        None => default_action(event),
    }
}

} // verus!
