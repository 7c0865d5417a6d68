use rucline::completion::{chars_of, Basic, Completer, Suggester};

fn chars(s: &str) -> Vec<char> {
    s.chars().collect()
}

#[test]
fn should_not_complete_if_context_is_different() {
    let basic = Basic::new(&["some programmer was here", "some developer was there"]);
    assert_eq!(basic.complete_for(&chars("a")), None);
}

#[test]
fn complete_the_first_match() {
    let basic = Basic::new(&["zz", "b3", "b2"]);
    let expected = ['3'];
    assert_eq!(basic.complete_for(&chars("b")), Some(expected.to_vec()));
}

#[test]
fn only_complete_the_remainder() {
    let basic = Basic::new(&["abcd", "abc"]);
    let expected = ['d'];
    assert_eq!(basic.complete_for(&chars("abc")), Some(expected.to_vec()));
}

#[test]
fn always_suggest() {
    let basic = Basic::new(&["a", "b", "c"]);
    let options = [['a'], ['b'], ['c']];
    let expected = vec![options[0].to_vec(), options[1].to_vec(), options[2].to_vec()];
    assert_eq!(&basic.suggest_for(&[]), &expected);
    assert_eq!(&basic.suggest_for(&chars("a")), &expected);
    assert_eq!(&basic.suggest_for(&chars("z")), &expected);
}

#[test]
fn should_not_complete_if_empty() {
    let basic = Basic::new(&["some programmer was here", "some developer was there"]);
    assert_eq!(basic.complete_for(&[]), None);
}

#[test]
fn equal_candidate_gives_empty_remainder() {
    let basic = Basic::new(&["abc", "abcd"]);
    assert_eq!(basic.complete_for(&chars("abc")), Some(vec![]));
}

#[test]
fn completion_is_case_sensitive() {
    let basic = Basic::new(&["Hello"]);
    assert_eq!(basic.complete_for(&chars("he")), None);
    assert_eq!(basic.complete_for(&chars("He")), Some(chars("llo")));
}

#[test]
fn chars_of_keeps_scalar_values() {
    assert_eq!(chars_of("häj ✓"), vec!['h', 'ä', 'j', ' ', '✓']);
    assert_eq!(chars_of(""), Vec::<char>::new());
}
