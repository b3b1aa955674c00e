use prestoedit::bind::{check, event_name};
use prestoedit::event::{Event, Mods, Nav};
use prestoedit::math::Vector;
use prestoedit::script::{Command, Open};
use prestoedit::strmap::StrMap;

fn mods(ctrl: bool, alt: bool, shift: bool) -> Mods {
    Mods { ctrl, alt, shift }
}

#[test]
fn keys_are_named_in_upper_case() {
    assert_eq!(event_name(&Event::Key(mods(false, false, false), 'o')), Some("<O>".to_string()));
    assert_eq!(event_name(&Event::Key(mods(true, false, false), 'o')), Some("<C-O>".to_string()));
    assert_eq!(event_name(&Event::Key(mods(true, true, true), 'x')), Some("<C-A-S-X>".to_string()));
    assert_eq!(event_name(&Event::Key(mods(false, false, true), ':')), Some("<S-:>".to_string()));
    assert_eq!(event_name(&Event::Key(mods(false, true, false), 'é')), Some("<A-é>".to_string()));
}

#[test]
fn navigation_keys_have_names() {
    let none = mods(false, false, false);
    assert_eq!(event_name(&Event::Nav(none, Nav::Up)), Some("<UP>".to_string()));
    assert_eq!(event_name(&Event::Nav(none, Nav::Down)), Some("<DOWN>".to_string()));
    assert_eq!(event_name(&Event::Nav(none, Nav::Left)), Some("<LEFT>".to_string()));
    assert_eq!(event_name(&Event::Nav(none, Nav::Right)), Some("<RIGHT>".to_string()));
    assert_eq!(event_name(&Event::Nav(none, Nav::Escape)), Some("<ESC>".to_string()));
    assert_eq!(event_name(&Event::Nav(none, Nav::Enter)), Some("<ENTER>".to_string()));
    assert_eq!(event_name(&Event::Nav(mods(false, true, false), Nav::BackSpace)), Some("<A-BS>".to_string()));
}

#[test]
fn other_events_have_no_name() {
    assert_eq!(event_name(&Event::Quit), None);
    assert_eq!(event_name(&Event::Save(None)), None);
    assert_eq!(event_name(&Event::Mouse(Vector { x: 1, y: 2 }, 0)), None);
}

#[test]
fn check_finds_the_bound_command() {
    let mut map: StrMap<Command> = StrMap::new();
    map.insert("<C-O>".to_string(), Command::Open("a.txt".to_string(), Open::Text));
    map.insert("<S-:>".to_string(), Command::Run);
    map.insert("<C-DOWN>".to_string(), Command::Close);
    assert_eq!(
        check(&map, &Event::Key(mods(true, false, false), 'o')),
        Some(Command::Open("a.txt".to_string(), Open::Text))
    );
    assert_eq!(check(&map, &Event::Key(mods(false, false, true), ':')), Some(Command::Run));
    assert_eq!(check(&map, &Event::Nav(mods(true, false, false), Nav::Down)), Some(Command::Close));
    assert_eq!(check(&map, &Event::Key(mods(false, false, false), 'o')), None);
    assert_eq!(check(&map, &Event::Quit), None);
    assert_eq!(check(&StrMap::new(), &Event::Key(mods(true, false, false), 'o')), None);
}
