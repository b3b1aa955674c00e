use prestoedit::drawers::gl::{key_event, push_once, same_event, shift_char};
use prestoedit::event::{Event, Mods, Nav};
use prestoedit::math::Vector;

const NONE: Mods = Mods { ctrl: false, alt: false, shift: false };
const SHIFT: Mods = Mods { ctrl: false, alt: false, shift: true };

#[test]
fn shift_changes_punctuation() {
    assert_eq!(shift_char('[', false, Some('[')), Some('{'));
    assert_eq!(shift_char(']', false, Some(']')), Some('}'));
    assert_eq!(shift_char('.', false, Some('.')), Some('>'));
    assert_eq!(shift_char(',', false, Some(',')), Some('<'));
    assert_eq!(shift_char(';', false, Some(';')), Some(':'));
    assert_eq!(shift_char('\'', false, Some('\'')), Some('"'));
}

#[test]
fn shift_changes_digits_by_the_row_of_symbols() {
    let row: Vec<char> = "!@#$%^&*()".chars().collect();
    for (i, digit) in "0123456789".chars().enumerate() {
        assert_eq!(shift_char(digit, true, Some(digit)), Some(row[i]));
    }
    assert_eq!(shift_char('²', true, Some('²')), None);
    assert_eq!(shift_char('5', false, Some('5')), Some('5'));
}

#[test]
fn shift_writes_letters_in_upper_case() {
    assert_eq!(shift_char('a', false, None), None);
    assert_eq!(shift_char('a', false, Some('A')), Some('A'));
    assert_eq!(shift_char('-', false, Some('-')), Some('-'));
}

#[test]
fn a_key_with_shift_uses_the_shift_up() {
    assert_eq!(key_event('a', NONE), Event::Key(NONE, 'a'));
    assert_eq!(key_event('a', SHIFT), Event::Key(NONE, 'A'));
    assert_eq!(key_event('ß', SHIFT), Event::Key(NONE, 'S'));
    assert_eq!(key_event(';', SHIFT), Event::Key(NONE, ':'));
    assert_eq!(key_event('1', SHIFT), Event::Key(NONE, '@'));
    assert_eq!(key_event('²', SHIFT), Event::Key(SHIFT, '²'));
    assert_eq!(
        key_event('x', Mods { ctrl: true, alt: true, shift: true }),
        Event::Key(Mods { ctrl: true, alt: true, shift: false }, 'X')
    );
    assert_eq!(key_event(';', Mods { ctrl: true, alt: false, shift: false }), Event::Key(Mods { ctrl: true, alt: false, shift: false }, ';'));
}

#[test]
fn an_event_is_reported_once_in_a_frame() {
    let mut events = vec![Event::Key(NONE, 'a')];
    push_once(&mut events, Event::Key(NONE, 'a'));
    assert_eq!(events, vec![Event::Key(NONE, 'a')]);
    push_once(&mut events, Event::Key(SHIFT, 'a'));
    push_once(&mut events, Event::Nav(NONE, Nav::Up));
    push_once(&mut events, Event::Key(SHIFT, 'a'));
    push_once(&mut events, Event::Save(Some("x".to_string())));
    push_once(&mut events, Event::Save(Some("x".to_string())));
    push_once(&mut events, Event::Save(None));
    assert_eq!(
        events,
        vec![
            Event::Key(NONE, 'a'),
            Event::Key(SHIFT, 'a'),
            Event::Nav(NONE, Nav::Up),
            Event::Save(Some("x".to_string())),
            Event::Save(None),
        ]
    );
    let mut empty = vec![];
    push_once(&mut empty, Event::Quit);
    assert_eq!(empty, vec![Event::Quit]);
}

#[test]
fn events_compare_by_what_they_hold() {
    assert!(same_event(&Event::Quit, &Event::Quit));
    assert!(same_event(&Event::Mouse(Vector { x: 1, y: 2 }, 0), &Event::Mouse(Vector { x: 1, y: 2 }, 0)));
    assert!(!same_event(&Event::Mouse(Vector { x: 1, y: 2 }, 0), &Event::Mouse(Vector { x: 1, y: 2 }, 1)));
    assert!(!same_event(&Event::Save(None), &Event::Save(Some("".to_string()))));
    assert!(!same_event(&Event::Key(NONE, 'a'), &Event::Nav(NONE, Nav::Up)));
    assert!(!same_event(&Event::Nav(NONE, Nav::Down), &Event::Nav(NONE, Nav::Up)));
}
