use rucline::completion::Basic;
use rucline::key_bindings::{Action, Direction, Range, Scope};
use rucline::prompt::context::{EditingContext, Status};

fn chars(s: &str) -> Vec<char> {
    s.chars().collect()
}

fn shown(r: Option<&[char]>) -> Option<String> {
    r.map(|p| p.iter().collect())
}

fn text(ctx: &EditingContext<'_, Basic, Basic>) -> String {
    ctx.buffer().iter().collect()
}

#[test]
fn writes_fill_the_buffer() {
    let completer = Basic::new(&["hello there"]);
    let mut ctx = EditingContext::<Basic, Basic>::new(Some(&completer), None);
    for c in "hello".chars() {
        assert_eq!(ctx.apply(Action::Write(c)), Status::Continue);
    }
    assert_eq!(text(&ctx), "hello");
    assert_eq!(ctx.cursor(), 5);
}

#[test]
fn first_match_then_complete_line() {
    let completer = Basic::new(&["zz", "b3", "b2"]);
    let mut ctx = EditingContext::<Basic, Basic>::new(Some(&completer), None);
    ctx.apply(Action::Write('b'));
    assert_eq!(shown(ctx.completion()), Some("3".to_string()));
    ctx.apply(Action::Complete(Range::Line));
    assert_eq!(text(&ctx), "b3");
    assert_eq!(ctx.cursor(), 2);
    assert_eq!(ctx.completion(), None);
}

#[test]
fn suggestions_cycle_and_cancel() {
    let suggester = Basic::new(&["a", "b", "c"]);
    let mut ctx = EditingContext::<Basic, Basic>::new(None, Some(&suggester));
    ctx.apply(Action::Suggest(Direction::Forward));
    assert_eq!(shown(ctx.suggestion()), Some("a".to_string()));
    ctx.apply(Action::Suggest(Direction::Forward));
    assert_eq!(shown(ctx.suggestion()), Some("b".to_string()));
    assert_eq!(ctx.apply(Action::Cancel), Status::Continue);
    assert_eq!(text(&ctx), "");
    assert!(!ctx.is_suggesting());
    assert_eq!(ctx.completion(), None);
}

#[test]
fn suggestion_cycling_wraps() {
    let suggester = Basic::new(&["a", "b", "c"]);
    let mut ctx = EditingContext::<Basic, Basic>::new(None, Some(&suggester));
    for _ in 0..3 {
        ctx.apply(Action::Suggest(Direction::Forward));
    }
    assert_eq!(shown(ctx.suggestion()), Some("c".to_string()));
    ctx.apply(Action::Suggest(Direction::Forward));
    assert_eq!(shown(ctx.suggestion()), Some("a".to_string()));
    ctx.apply(Action::Suggest(Direction::Backward));
    assert_eq!(shown(ctx.suggestion()), Some("c".to_string()));
}

#[test]
fn backward_from_fresh_session_selects_last() {
    let suggester = Basic::new(&["a", "b", "c"]);
    let mut ctx = EditingContext::<Basic, Basic>::new(None, Some(&suggester));
    ctx.apply(Action::Suggest(Direction::Backward));
    assert_eq!(shown(ctx.suggestion()), Some("c".to_string()));
}

#[test]
fn no_candidates_select_nothing() {
    let suggester = Basic::new(&[]);
    let mut ctx = EditingContext::<Basic, Basic>::new(None, Some(&suggester));
    ctx.apply(Action::Suggest(Direction::Forward));
    assert!(ctx.is_suggesting());
    assert_eq!(ctx.suggestion(), None);
    ctx.apply(Action::Suggest(Direction::Backward));
    assert_eq!(ctx.suggestion(), None);
}

#[test]
fn remainder_of_strict_prefix_is_shown() {
    let completer = Basic::new(&["abcd", "abc"]);
    let mut ctx = EditingContext::<Basic, Basic>::new(Some(&completer), None);
    for c in "abc".chars() {
        ctx.apply(Action::Write(c));
    }
    assert_eq!(shown(ctx.completion()), Some("d".to_string()));
}

#[test]
fn equal_candidate_shows_no_completion() {
    let completer = Basic::new(&["abc", "abcd"]);
    let mut ctx = EditingContext::<Basic, Basic>::new(Some(&completer), None);
    for c in "abc".chars() {
        ctx.apply(Action::Write(c));
    }
    assert_eq!(ctx.completion(), None);
}

#[test]
fn completion_and_suggestion_never_coexist() {
    let basic = Basic::new(&["alpha beta", "alpine"]);
    let mut ctx = EditingContext::<Basic, Basic>::new(Some(&basic), Some(&basic));
    let actions = [
        Action::Write('a'),
        Action::Suggest(Direction::Forward),
        Action::Write('l'),
        Action::Move(Range::Single, Direction::Backward),
        Action::Suggest(Direction::Backward),
        Action::Suggest(Direction::Backward),
        Action::Complete(Range::Word),
        Action::Delete(Scope::Relative(Range::Single, Direction::Backward)),
        Action::Suggest(Direction::Forward),
        Action::Cancel,
        Action::Noop,
        Action::Complete(Range::Single),
    ];
    for a in actions {
        assert_eq!(ctx.apply(a), Status::Continue);
        assert!(!(ctx.completion().is_some() && ctx.is_suggesting()));
    }
}

#[test]
fn write_while_suggesting_drops_the_session() {
    let basic = Basic::new(&["xyz"]);
    let mut ctx = EditingContext::<Basic, Basic>::new(None, Some(&basic));
    ctx.apply(Action::Write('a'));
    ctx.apply(Action::Suggest(Direction::Forward));
    assert!(ctx.is_suggesting());
    ctx.apply(Action::Write('b'));
    assert!(!ctx.is_suggesting());
    assert_eq!(text(&ctx), "ab");
}

#[test]
fn suggest_clears_the_completion() {
    let basic = Basic::new(&["abc"]);
    let mut ctx = EditingContext::<Basic, Basic>::new(Some(&basic), Some(&basic));
    ctx.apply(Action::Write('a'));
    assert_eq!(shown(ctx.completion()), Some("bc".to_string()));
    ctx.apply(Action::Suggest(Direction::Forward));
    assert_eq!(ctx.completion(), None);
    assert_eq!(shown(ctx.suggestion()), Some("abc".to_string()));
}

#[test]
fn complete_single_and_word() {
    let completer = Basic::new(&["git commit --amend"]);
    let mut ctx = EditingContext::<Basic, Basic>::new(Some(&completer), None);
    ctx.apply(Action::Write('g'));
    ctx.apply(Action::Complete(Range::Single));
    assert_eq!(text(&ctx), "gi");
    assert_eq!(shown(ctx.completion()), Some("t commit --amend".to_string()));
    ctx.apply(Action::Complete(Range::Word));
    assert_eq!(text(&ctx), "git");
    ctx.apply(Action::Complete(Range::Word));
    assert_eq!(text(&ctx), "git commit");
    assert_eq!(shown(ctx.completion()), Some(" --amend".to_string()));
}

#[test]
fn complete_without_preview_queries_first() {
    let completer = Basic::new(&["abc"]);
    let suggester = Basic::new(&["zzz"]);
    let mut ctx = EditingContext::<Basic, Basic>::new(Some(&completer), Some(&suggester));
    ctx.apply(Action::Write('a'));
    ctx.apply(Action::Suggest(Direction::Forward));
    assert!(ctx.is_suggesting());
    ctx.apply(Action::Complete(Range::Line));
    assert!(!ctx.is_suggesting());
    assert_eq!(text(&ctx), "abc");
}

#[test]
fn complete_with_nothing_to_offer() {
    let completer = Basic::new(&["xyz"]);
    let mut ctx = EditingContext::<Basic, Basic>::new(Some(&completer), None);
    ctx.apply(Action::Write('a'));
    ctx.apply(Action::Complete(Range::Line));
    assert_eq!(text(&ctx), "a");
    assert_eq!(ctx.completion(), None);
}

#[test]
fn accept_takes_the_completion() {
    let completer = Basic::new(&["hello"]);
    let mut ctx = EditingContext::<Basic, Basic>::new(Some(&completer), None);
    ctx.apply(Action::Write('h'));
    assert_eq!(ctx.apply(Action::Accept), Status::Accepted(chars("hello")));
    assert_eq!(text(&ctx), "");
}

#[test]
fn accept_takes_the_selected_suggestion() {
    let suggester = Basic::new(&["one", "two"]);
    let mut ctx = EditingContext::<Basic, Basic>::new(None, Some(&suggester));
    ctx.apply(Action::Write('x'));
    ctx.apply(Action::Suggest(Direction::Backward));
    assert_eq!(ctx.apply(Action::Accept), Status::Accepted(chars("two")));
}

#[test]
fn accept_plain_buffer() {
    let mut ctx = EditingContext::<Basic, Basic>::new(None, None);
    ctx.apply(Action::Write('o'));
    ctx.apply(Action::Write('k'));
    assert_eq!(ctx.apply(Action::Accept), Status::Accepted(chars("ok")));
}

#[test]
fn cancel_when_idle_ends_the_session() {
    let mut ctx = EditingContext::<Basic, Basic>::new(None, None);
    ctx.apply(Action::Write('o'));
    assert_eq!(ctx.apply(Action::Cancel), Status::Cancelled);
    assert_eq!(text(&ctx), "");
}

#[test]
fn suggest_without_suggester_does_nothing() {
    let mut ctx = EditingContext::<Basic, Basic>::new(None, None);
    ctx.apply(Action::Write('o'));
    ctx.apply(Action::Suggest(Direction::Forward));
    assert!(!ctx.is_suggesting());
    assert_eq!(text(&ctx), "o");
}

#[test]
fn moves_and_deletes_requery_the_completion() {
    let completer = Basic::new(&["abc"]);
    let mut ctx = EditingContext::<Basic, Basic>::new(Some(&completer), None);
    ctx.apply(Action::Write('a'));
    ctx.apply(Action::Write('x'));
    assert_eq!(ctx.completion(), None);
    ctx.delete(Scope::Relative(Range::Single, Direction::Backward));
    assert_eq!(shown(ctx.completion()), Some("bc".to_string()));
    assert!(ctx.move_cursor(Range::Single, Direction::Backward));
    assert!(!ctx.move_cursor(Range::Single, Direction::Backward));
    assert_eq!(ctx.cursor(), 0);
    assert_eq!(shown(ctx.completion()), Some("bc".to_string()));
    ctx.delete(Scope::Relative(Range::Single, Direction::Backward));
    assert_eq!(text(&ctx), "a");
    assert_eq!(ctx.cursor(), 0);
}

#[test]
fn suggest_without_suggester_clears_the_completion() {
    let completer = Basic::new(&["abc"]);
    let mut ctx = EditingContext::<Basic, Basic>::new(Some(&completer), None);
    ctx.apply(Action::Write('a'));
    assert_eq!(shown(ctx.completion()), Some("bc".to_string()));
    ctx.apply(Action::Suggest(Direction::Forward));
    assert_eq!(ctx.completion(), None);
    assert!(!ctx.is_suggesting());
    assert_eq!(text(&ctx), "a");
}
