use rucline::completion::Basic;
use rucline::key_bindings::{
    action_for, default_action, Action, Direction, Event, KeyBindings, KeyCode, Range, Scope,
};
use rucline::Prompt;

fn ctrl(c: char) -> Event {
    Event { code: KeyCode::Char(c), control: true, alt: false }
}

#[test]
fn default_bindings() {
    assert_eq!(default_action(Event::from(KeyCode::Char('x'))), Action::Write('x'));
    assert_eq!(default_action(Event::from(KeyCode::Enter)), Action::Accept);
    assert_eq!(default_action(Event::from(KeyCode::Esc)), Action::Cancel);
    assert_eq!(default_action(Event::from(KeyCode::Tab)), Action::Suggest(Direction::Forward));
    assert_eq!(
        default_action(Event::from(KeyCode::BackTab)),
        Action::Suggest(Direction::Backward)
    );
    assert_eq!(default_action(ctrl('w')), Action::Delete(Scope::WholeWord));
    assert_eq!(default_action(ctrl('u')), Action::Delete(Scope::WholeLine));
    assert_eq!(
        default_action(ctrl('h')),
        Action::Delete(Scope::Relative(Range::Line, Direction::Backward))
    );
    assert_eq!(default_action(ctrl('q')), Action::Noop);
}

#[test]
fn overrides_win_over_defaults() {
    let mut bindings = KeyBindings::new();
    assert_eq!(bindings.get(Event::from(KeyCode::Right)), None);
    bindings.insert(Event::from(KeyCode::Right), Action::Complete(Range::Line));
    bindings.insert(Event::from(KeyCode::Up), Action::Noop);
    bindings.insert(Event::from(KeyCode::Up), Action::Accept);
    assert_eq!(
        action_for(Some(&bindings), Event::from(KeyCode::Right)),
        Action::Complete(Range::Line)
    );
    assert_eq!(action_for(Some(&bindings), Event::from(KeyCode::Up)), Action::Accept);
    assert_eq!(
        action_for(Some(&bindings), Event::from(KeyCode::Left)),
        Action::Move(Range::Single, Direction::Backward)
    );
    assert_eq!(
        action_for(None, Event::from(KeyCode::Right)),
        Action::Move(Range::Single, Direction::Forward)
    );
}

#[test]
fn prompt_builder() {
    let mut prompt: Prompt = Prompt::new();
    assert!(!prompt.erases_after_read());
    assert!(prompt.prompt_chars().is_none());
    assert!(prompt.key_bindings().is_none());
    prompt
        .erase_after_read(true)
        .prompt("> ")
        .bindings(KeyBindings::new())
        .completer(Basic::new(&["abc"]))
        .suggester(Basic::new(&["xyz"]));
    assert!(prompt.erases_after_read());
    assert_eq!(prompt.prompt_chars(), Some(&['>', ' '][..]));
    assert!(prompt.key_bindings().is_some());
    let mut session = prompt.session();
    session.apply(Action::Write('a'));
    assert_eq!(session.completion(), Some(&['b', 'c'][..]));
    session.apply(Action::Suggest(Direction::Forward));
    assert_eq!(session.suggestion(), Some(&['x', 'y', 'z'][..]));
}

#[test]
fn default_prompt_is_empty() {
    let prompt: Prompt = Prompt::default();
    assert!(!prompt.erases_after_read());
    assert!(prompt.prompt_chars().is_none());
    assert!(prompt.key_bindings().is_none());
    let session = prompt.session();
    assert!(session.buffer().is_empty());
    assert_eq!(session.completion(), None);
}
