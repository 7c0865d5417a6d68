//! The prompt and its editing machinery.
pub mod buffer;
pub mod context;

use vstd::prelude::*;

use crate::completion::{chars_of, Basic, Completer, Suggester};
use crate::key_bindings::KeyBindings;
use crate::prompt::buffer::Line;
use crate::prompt::context::{EditingContext, Preview};

verus! {

/// The settings of a line prompt: the text shown before the line, whether the line is
/// erased once read, the key bindings that override the default ones, and the completer and
/// the suggester consulted while the line is edited.
pub struct Prompt<C: Completer = Basic, S: Suggester = Basic> {
    erase_after_read: bool,
    prompt: Option<Vec<char>>,
    bindings: Option<KeyBindings>,
    completer: Option<C>,
    suggester: Option<S>,
}

impl<C: Completer, S: Suggester> Prompt<C, S> {
    /// Whether the line is erased from the screen once read.
    pub closed spec fn erases(&self) -> bool {
        self.erase_after_read
    }

    /// The text shown before the line, if any.
    pub closed spec fn prompt_text(&self) -> Option<Seq<char>> {
        match self.prompt {
            Some(p) => Some(p@),
            None => None,
        }
    }

    /// The key bindings that override the default ones, if any.
    pub closed spec fn bindings_of(&self) -> Option<KeyBindings> {
        self.bindings
    }

    /// The completer consulted, if any.
    pub closed spec fn completer_of(&self) -> Option<C> {
        self.completer
    }

    /// The suggester consulted, if any.
    pub closed spec fn suggester_of(&self) -> Option<S> {
        self.suggester
    }

    /// A prompt with no text, no bindings, no completer and no suggester, that keeps the
    /// line on screen once read.
    pub fn new() -> (r: Self)
        ensures
            !r.erases(),
            r.prompt_text() is None,
            r.bindings_of() is None,
            r.completer_of() is None,
            r.suggester_of() is None,
    {
        Prompt {
            erase_after_read: false,
            prompt: None,
            bindings: None,
            completer: None,
            suggester: None,
        }
    }

    /// Sets whether the line is erased from the screen once read.
    pub fn erase_after_read(&mut self, erase_after_read: bool) -> (r: &mut Self)
        ensures
            r.erases() == erase_after_read,
            r.prompt_text() == old(self).prompt_text(),
            r.bindings_of() == old(self).bindings_of(),
            r.completer_of() == old(self).completer_of(),
            r.suggester_of() == old(self).suggester_of(),
            *final(self) == *final(r),
    {
        self.erase_after_read = erase_after_read;
        self
    }

    /// Sets the text shown before the line.
    pub fn prompt(&mut self, prompt: &str) -> (r: &mut Self)
        ensures
            r.prompt_text() == Some(prompt@),
            r.erases() == old(self).erases(),
            r.bindings_of() == old(self).bindings_of(),
            r.completer_of() == old(self).completer_of(),
            r.suggester_of() == old(self).suggester_of(),
            *final(self) == *final(r),
    {
        self.prompt = Some(chars_of(prompt));
        self
    }

    /// Sets the key bindings that override the default ones.
    pub fn bindings(&mut self, bindings: KeyBindings) -> (r: &mut Self)
        ensures
            r.bindings_of() == Some(bindings),
            r.erases() == old(self).erases(),
            r.prompt_text() == old(self).prompt_text(),
            r.completer_of() == old(self).completer_of(),
            r.suggester_of() == old(self).suggester_of(),
            *final(self) == *final(r),
    {
        self.bindings = Some(bindings);
        self
    }

    /// Sets the completer consulted while the line is edited.
    pub fn completer(&mut self, completer: C) -> (r: &mut Self)
        ensures
            r.completer_of() == Some(completer),
            r.erases() == old(self).erases(),
            r.prompt_text() == old(self).prompt_text(),
            r.bindings_of() == old(self).bindings_of(),
            r.suggester_of() == old(self).suggester_of(),
            *final(self) == *final(r),
    {
        self.completer = Some(completer);
        self
    }

    /// Sets the suggester consulted while the line is edited.
    pub fn suggester(&mut self, suggester: S) -> (r: &mut Self)
        ensures
            r.suggester_of() == Some(suggester),
            r.erases() == old(self).erases(),
            r.prompt_text() == old(self).prompt_text(),
            r.bindings_of() == old(self).bindings_of(),
            r.completer_of() == old(self).completer_of(),
            *final(self) == *final(r),
    {
        self.suggester = Some(suggester);
        self
    }

    /// Whether the line is erased from the screen once read.
    pub fn erases_after_read(&self) -> (r: bool)
        ensures
            r == self.erases(),
    {
        self.erase_after_read
    }

    /// The text shown before the line, if any.
    pub fn prompt_chars(&self) -> (r: Option<&[char]>)
        ensures
            match r {
                Some(p) => self.prompt_text() == Some(p@),
                None => self.prompt_text() is None,
            },
    {
        match &self.prompt {
            Some(p) => Some(p.as_slice()),
            None => None,
        }
    }

    /// The key bindings that override the default ones, if any.
    pub fn key_bindings(&self) -> (r: Option<&KeyBindings>)
        ensures
            match r {
                Some(b) => self.bindings_of() == Some(*b),
                None => self.bindings_of() is None,
            },
    {
        self.bindings.as_ref()
    }

    /// A fresh editing session that consults this prompt's completer and suggester.
    pub fn session(&self) -> (r: EditingContext<'_, C, S>)
        ensures
            r.wf(),
            r.line() == Line::empty(),
            r.preview() == Preview::Idle,
            r.completer() == match self.completer_of() {
                Some(c) => Some(&c),
                None => None::<&C>,
            },
            r.suggester() == match self.suggester_of() {
                Some(s) => Some(&s),
                None => None::<&S>,
            },
    {
        EditingContext::new(self.completer.as_ref(), self.suggester.as_ref())
    }
}

impl<C: Completer, S: Suggester> Default for Prompt<C, S> {
    /// The same as `Prompt::new`.
    fn default() -> (r: Self)
        ensures
            !r.erases(),
            r.prompt_text() is None,
            r.bindings_of() is None,
            r.completer_of() is None,
            r.suggester_of() is None,
    {
        Prompt::new()
    }
}

} // verus!
