//! Sources of completions and suggestions for a prompt.
//!
//! A [`Completer`] proposes text to append to the buffer; a [`Suggester`] proposes whole
//! replacements for it. [`Basic`] serves a fixed list of options as both.
use vstd::prelude::*;
use vstd::std_specs::iter::IteratorSpec;

verus! {

/// The characters of an optional vector.
pub open spec fn chars_of_option(o: Option<Vec<char>>) -> Option<Seq<char>> {
    match o {
        Some(v) => Some(v@),
        None => None,
    }
}

/// The characters of each vector of a sequence.
pub open spec fn chars_of_all(v: Seq<Vec<char>>) -> Seq<Seq<char>> {
    v.map_values(|x: Vec<char>| x@)
}

/// Completes the buffer in-line.
///
/// Whenever the line is edited, the prompt asks for a completion to append to the buffer.
/// The buffer is not changed until a completion action takes it in.
pub trait Completer {
    /// The completion offered for a buffer that holds `buffer`.
    spec fn completion(&self, buffer: Seq<char>) -> Option<Seq<char>>;

    /// The text to append to `buffer`, if any.
    fn complete_for(&self, buffer: &[char]) -> (r: Option<Vec<char>>)
        ensures
            chars_of_option(r) == self.completion(buffer@),
    ;
}

/// Offers whole replacements for the buffer, to be cycled through.
pub trait Suggester {
    /// The suggestions offered for a buffer that holds `buffer`.
    spec fn suggestions(&self, buffer: Seq<char>) -> Seq<Seq<char>>;

    /// The replacements offered for `buffer`, in order.
    fn suggest_for(&self, buffer: &[char]) -> (r: Vec<Vec<char>>)
        ensures
            chars_of_all(r@) == self.suggestions(buffer@),
    ;
}

/// What follows `buffer` in the first of `options` that begins with it.
pub open spec fn first_completion(options: Seq<Seq<char>>, buffer: Seq<char>) -> Option<
    Seq<char>,
>
    decreases options.len(),
{
    if options.len() == 0 {
        None
    } else if buffer.is_prefix_of(options[0]) {
        Some(options[0].subrange(buffer.len() as int, options[0].len() as int))
    } else {
        first_completion(options.drop_first(), buffer)
    }
}

/// The characters of a string, in order.
pub fn chars_of(s: &str) -> (r: Vec<char>)
    ensures
        r@ == s@,
{
    broadcast use vstd::string::axiom_spec_iter, vstd::string::next_postcondition;

    let mut it = s.chars();
    let mut out: Vec<char> = Vec::new();
    loop
        invariant_except_break
            out@ + it.remaining() == s@,
            it.obeys_prophetic_iter_laws(),
            it.decrease() is Some,
        ensures
            out@ == s@,
        decreases it.decrease()->0,
    {
        let ghost before = it.remaining();
        match it.next() {
            Some(c) => {
                assert(out@.push(c) + it.remaining() =~= out@ + before);
                out.push(c);
            },
            None => {
                assert(out@ + before =~= out@);
                break ;
            },
        }
    }
    out
}

/// Whether `s` begins with `prefix`.
fn starts_with(s: &Vec<char>, prefix: &[char]) -> (r: bool)
    ensures
        r == prefix@.is_prefix_of(s@),
{
    if prefix.len() > s.len() {
        return false;
    }
    let mut i: usize = 0;
    while i < prefix.len()
        invariant
            prefix@.len() <= s@.len(),
            i <= prefix@.len(),
            forall|k: int| 0 <= k < i ==> prefix@[k] == s@[k],
        decreases prefix@.len() - i,
    {
        if prefix[i] != s[i] {
            assert(prefix@[i as int] != s@.subrange(0, prefix@.len() as int)[i as int]);
            return false;
        }
        i = i + 1;
    }
    assert(prefix@ =~= s@.subrange(0, prefix@.len() as int));
    true
}

/// The characters of `s` from `start` on.
fn suffix_from(s: &Vec<char>, start: usize) -> (r: Vec<char>)
    requires
        start <= s@.len(),
    ensures
        r@ == s@.subrange(start as int, s@.len() as int),
{
    let mut out: Vec<char> = Vec::new();
    let mut i: usize = start;
    while i < s.len()
        invariant
            start <= i <= s@.len(),
            out@ =~= s@.subrange(start as int, i as int),
        decreases s@.len() - i,
    {
        out.push(s[i]);
        i = i + 1;
    }
    out
}

/// A basic completion provider: a fixed list of options, served both as completions and as
/// suggestions.
pub struct Basic(Vec<Vec<char>>);

impl Basic {
    /// The options, in the order they were given.
    pub closed spec fn options(&self) -> Seq<Seq<char>> {
        chars_of_all(self.0@)
    }

    /// A provider that serves `options`.
    pub fn new(options: &[&str]) -> (b: Basic)
        ensures
            b.options() == options@.map_values(|s: &str| s@),
    {
        let mut all: Vec<Vec<char>> = Vec::new();
        let mut i: usize = 0;
        while i < options.len()
            invariant
                i <= options@.len(),
                chars_of_all(all@) =~= options@.subrange(0, i as int).map_values(|s: &str| s@),
            decreases options@.len() - i,
        {
            let chars = chars_of(options[i]);
            assert(options@.subrange(0, i + 1) =~= options@.subrange(0, i as int).push(
                options@[i as int],
            ));
            let ghost prev = all@;
            all.push(chars);
            assert(chars_of_all(all@) =~= chars_of_all(prev).push(chars@));
            i = i + 1;
        }
        assert(options@.subrange(0, options@.len() as int) =~= options@);
        Basic(all)
    }
}

impl Completer for Basic {
    /// Nothing for an empty buffer; otherwise what follows the buffer in the first option
    /// that begins with it, which is empty where that option equals the buffer.
    open spec fn completion(&self, buffer: Seq<char>) -> Option<Seq<char>> {
        if buffer.len() == 0 {
            None
        } else {
            first_completion(self.options(), buffer)
        }
    }

    fn complete_for(&self, buffer: &[char]) -> (r: Option<Vec<char>>) {
        if buffer.len() == 0 {
            return None;
        }
        let mut i: usize = 0;
        assert(self.options().subrange(0, self.options().len() as int) =~= self.options());
        while i < self.0.len()
            invariant
                i <= self.0@.len(),
                buffer@.len() > 0,
                first_completion(self.options(), buffer@) == first_completion(
                    self.options().subrange(i as int, self.options().len() as int),
                    buffer@,
                ),
            decreases self.0@.len() - i,
        {
            let ghost rest = self.options().subrange(i as int, self.options().len() as int);
            assert(rest.drop_first() =~= self.options().subrange(
                i + 1,
                self.options().len() as int,
            ));
            assert(rest[0] == self.0@[i as int]@);
            if starts_with(&self.0[i], buffer) {
                let r = suffix_from(&self.0[i], buffer.len());
                assert(first_completion(rest, buffer@) == Some(r@));
                return Some(r);
            }
            i = i + 1;
        }
        assert(self.options().subrange(i as int, self.options().len() as int) =~= Seq::<
            Seq<char>,
        >::empty());
        None
    }
}

impl Suggester for Basic {
    /// Every option, whatever the buffer holds.
    open spec fn suggestions(&self, buffer: Seq<char>) -> Seq<Seq<char>> {
        self.options()
    }

    fn suggest_for(&self, buffer: &[char]) -> (r: Vec<Vec<char>>) {
        let mut all: Vec<Vec<char>> = Vec::new();
        let mut i: usize = 0;
        while i < self.0.len()
            invariant
                i <= self.0@.len(),
                chars_of_all(all@) =~= chars_of_all(self.0@.subrange(0, i as int)),
            decreases self.0@.len() - i,
        {
            let copy = suffix_from(&self.0[i], 0);
            assert(self.0@.subrange(0, i + 1) =~= self.0@.subrange(0, i as int).push(
                self.0@[i as int],
            ));
            assert(copy@ =~= self.0@[i as int]@);
            let ghost prev = all@;
            all.push(copy);
            assert(chars_of_all(all@) =~= chars_of_all(prev).push(copy@));
            i = i + 1;
        }
        assert(self.0@.subrange(0, self.0@.len() as int) =~= self.0@);
        all
    }
}

} // verus!
