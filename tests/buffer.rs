use rucline::key_bindings::{Direction, Range, Scope};
use rucline::prompt::buffer::{find_word_end, is_whitespace, Buffer};

fn filled(s: &str, cursor: usize) -> Buffer {
    let mut b = Buffer::new();
    let units: Vec<char> = s.chars().collect();
    b.insert_all(&units);
    b.move_cursor(Range::Line, Direction::Backward);
    for _ in 0..cursor {
        b.move_cursor(Range::Single, Direction::Forward);
    }
    b
}

fn text(b: &Buffer) -> String {
    b.as_view().iter().collect()
}

#[test]
fn writes_concatenate_in_order() {
    let mut b = Buffer::new();
    for c in "héllo wörld".chars() {
        b.insert(c);
    }
    assert_eq!(text(&b), "héllo wörld");
    assert_eq!(b.cursor(), 11);
    assert_eq!(b.len(), 11);
}

#[test]
fn insert_in_the_middle() {
    let mut b = filled("ac", 1);
    b.insert('b');
    assert_eq!(text(&b), "abc");
    assert_eq!(b.cursor(), 2);
}

#[test]
fn word_round_trip_from_word_start() {
    let mut b = filled("one  two three", 5);
    assert!(b.move_cursor(Range::Word, Direction::Forward));
    assert_eq!(b.cursor(), 8);
    assert!(b.move_cursor(Range::Word, Direction::Backward));
    assert_eq!(b.cursor(), 5);
}

#[test]
fn word_round_trip_fails_inside_a_word() {
    let mut b = filled("ab", 1);
    b.move_cursor(Range::Word, Direction::Forward);
    b.move_cursor(Range::Word, Direction::Backward);
    assert_eq!(b.cursor(), 0);
}

#[test]
fn word_moves_skip_whitespace_first() {
    let mut b = filled("ab   cd", 2);
    b.move_cursor(Range::Word, Direction::Forward);
    assert_eq!(b.cursor(), 7);
    b.move_cursor(Range::Word, Direction::Backward);
    assert_eq!(b.cursor(), 5);
    b.move_cursor(Range::Word, Direction::Backward);
    assert_eq!(b.cursor(), 0);
}

#[test]
fn line_moves_go_to_the_edges() {
    let mut b = filled("abc", 1);
    assert!(b.move_cursor(Range::Line, Direction::Forward));
    assert_eq!(b.cursor(), 3);
    assert!(!b.move_cursor(Range::Line, Direction::Forward));
    assert!(!b.move_cursor(Range::Single, Direction::Forward));
    assert!(b.move_cursor(Range::Line, Direction::Backward));
    assert_eq!(b.cursor(), 0);
    assert!(!b.move_cursor(Range::Single, Direction::Backward));
}

#[test]
fn delete_backward_at_start_is_a_no_op() {
    for range in [Range::Single, Range::Word, Range::Line] {
        let mut b = filled("abc def", 0);
        let span = b.remove(Scope::Relative(range, Direction::Backward));
        assert_eq!(span, (0, 0));
        assert_eq!(text(&b), "abc def");
        assert_eq!(b.cursor(), 0);
    }
}

#[test]
fn delete_forward_at_end_is_a_no_op() {
    let mut b = filled("abc", 3);
    assert_eq!(b.remove(Scope::Relative(Range::Single, Direction::Forward)), (3, 3));
    assert_eq!(text(&b), "abc");
    assert_eq!(b.cursor(), 3);
}

#[test]
fn delete_scopes() {
    let mut b = filled("abc def ghi", 6);
    assert_eq!(b.remove(Scope::Relative(Range::Single, Direction::Backward)), (5, 6));
    assert_eq!(text(&b), "abc df ghi");
    let mut b = filled("abc def ghi", 6);
    assert_eq!(b.remove(Scope::Relative(Range::Word, Direction::Backward)), (4, 6));
    assert_eq!(text(&b), "abc f ghi");
    let mut b = filled("abc def ghi", 6);
    assert_eq!(b.remove(Scope::Relative(Range::Word, Direction::Forward)), (6, 7));
    assert_eq!(text(&b), "abc de ghi");
    let mut b = filled("abc def ghi", 6);
    assert_eq!(b.remove(Scope::Relative(Range::Line, Direction::Backward)), (0, 6));
    assert_eq!(text(&b), "f ghi");
    assert_eq!(b.cursor(), 0);
    let mut b = filled("abc def ghi", 6);
    assert_eq!(b.remove(Scope::Relative(Range::Line, Direction::Forward)), (6, 11));
    assert_eq!(text(&b), "abc de");
    let mut b = filled("abc def ghi", 6);
    assert_eq!(b.remove(Scope::WholeWord), (4, 7));
    assert_eq!(text(&b), "abc  ghi");
    assert_eq!(b.cursor(), 4);
    let mut b = filled("abc def ghi", 6);
    assert_eq!(b.remove(Scope::WholeLine), (0, 11));
    assert!(b.is_empty());
    assert_eq!(b.cursor(), 0);
}

#[test]
fn set_replaces_content() {
    let mut b = filled("abc", 1);
    let units: Vec<char> = "xyzw".chars().collect();
    b.set(&units);
    assert_eq!(text(&b), "xyzw");
    assert_eq!(b.cursor(), 4);
}

#[test]
fn unicode_whitespace() {
    assert!(is_whitespace(' '));
    assert!(is_whitespace('\t'));
    assert!(is_whitespace('\u{3000}'));
    assert!(is_whitespace('\u{a0}'));
    assert!(!is_whitespace('a'));
    assert!(!is_whitespace('\u{200b}'));
}

#[test]
fn word_end_of_text() {
    let units: Vec<char> = "  ab cd".chars().collect();
    assert_eq!(find_word_end(&units, 0), 4);
    assert_eq!(find_word_end(&units, 4), 7);
    assert_eq!(find_word_end(&units, 7), 7);
}
