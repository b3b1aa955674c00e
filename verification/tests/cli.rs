use prestoedit::drawer::{Line, StatusLine};
use prestoedit::drawers::cli::{
    fit, key_event, layout_line, layout_runs, layout_status, layout_text, line_run, truncate, Key,
    Span,
};
use prestoedit::event::{Event, Mods, Nav};
use prestoedit::highlight::Color;
use prestoedit::math::{Rect, Vector};
use prestoedit::strmap::StrMap;

fn table() -> StrMap<Color> {
    let mut map = StrMap::new();
    map.insert("fg".to_string(), Color::Hex { r: 1, g: 2, b: 3 });
    map.insert("text".to_string(), Color::Link("fg".to_string()));
    map.insert("dim".to_string(), Color::Base16(8));
    map
}

fn link(name: &str) -> Color {
    Color::Link(name.to_string())
}

fn span(x: i32, y: i32, color: Option<(u8, u8, u8)>, text: &str) -> Span {
    Span { pos: Vector { x, y }, color, text: text.to_string() }
}

#[test]
fn truncate_keeps_the_first_characters() {
    assert_eq!(truncate("héllo", 2), "hé");
    assert_eq!(truncate("héllo", 5), "héllo");
    assert_eq!(truncate("héllo", 9), "héllo");
    assert_eq!(truncate("héllo", 0), "");
    assert_eq!(truncate("", 3), "");
}

#[test]
fn a_line_that_is_cut_ends_in_a_mark() {
    assert_eq!(fit("hello", 5), vec!['h', 'e', 'l', 'l', 'o']);
    assert_eq!(fit("hello", 4), vec!['h', 'e', 'l', '>']);
    assert_eq!(fit("hello", 1), vec!['>']);
    assert_eq!(fit("hello", 0), vec!['>']);
    assert_eq!(fit("", 0), Vec::<char>::new());
}

#[test]
fn runs_change_with_the_color() {
    let chars: Vec<char> = "abcd".chars().collect();
    let colors = vec![link("text"), link("fg"), link("error"), link("error")];
    assert_eq!(
        layout_runs(&table(), &chars, &colors, Vector { x: 10, y: 4 }),
        vec![
            span(10, 4, None, ""),
            span(10, 4, Some((1, 2, 3)), "a"),
            span(11, 4, Some((1, 2, 3)), "b"),
            span(12, 4, None, "cd"),
        ]
    );
    let colors = vec![Color::Base16(0), Color::Base16(0), link("fg")];
    assert_eq!(
        layout_runs(&table(), &chars, &colors, Vector { x: 0, y: 0 }),
        vec![span(0, 0, None, "ab"), span(2, 0, Some((1, 2, 3)), "cd")]
    );
    assert_eq!(
        layout_runs(&table(), &vec![], &vec![link("fg")], Vector { x: 3, y: 1 }),
        vec![span(3, 1, None, "")]
    );
    assert_eq!(
        layout_runs(&table(), &chars, &vec![], Vector { x: i32::MAX, y: 1 }),
        vec![span(i32::MAX, 1, None, "abcd")]
    );
}

#[test]
fn lines_are_cut_to_the_width_of_their_region() {
    let line = Line::Text { chars: "abcdef".to_string(), colors: vec![link("fg"); 6] };
    assert_eq!(
        layout_line(&table(), &line, Vector { x: 1, y: 2 }, 4),
        vec![span(1, 2, None, ""), span(1, 2, Some((1, 2, 3)), "abc>")]
    );
    assert_eq!(
        layout_line(&table(), &line, Vector { x: 1, y: 2 }, -1),
        vec![span(1, 2, None, ""), span(1, 2, Some((1, 2, 3)), "abcdef")]
    );
    let image = Line::Image { path: "lol.png".to_string(), height: 128 };
    assert_eq!(layout_line(&table(), &image, Vector { x: 1, y: 2 }, 40), vec![span(1, 2, None, "")]);
}

#[test]
fn a_block_of_lines_fills_rows_from_the_top() {
    let lines = vec![
        Line::Text { chars: "one".to_string(), colors: vec![link("dim"); 3] },
        Line::Text { chars: "two".to_string(), colors: vec![link("text"); 3] },
        Line::Text { chars: "three".to_string(), colors: vec![link("fg"); 5] },
    ];
    let rows = layout_text(&table(), &lines, Rect { x: 5, y: 7, w: 4, h: 1 });
    assert_eq!(
        rows,
        vec![
            vec![span(5, 7, None, ""), span(5, 7, None, "one")],
            vec![span(5, 8, None, ""), span(5, 8, Some((1, 2, 3)), "two")],
        ]
    );
    assert_eq!(layout_text(&table(), &lines, Rect { x: 5, y: 7, w: 4, h: 10 }).len(), 3);
    assert_eq!(layout_text(&table(), &lines, Rect { x: 5, y: 7, w: 4, h: 0 }).len(), 1);
    assert_eq!(layout_text(&table(), &lines, Rect { x: 5, y: 7, w: 4, h: -1 }).len(), 0);
}

#[test]
fn straight_lines_step_cell_by_cell() {
    let at = |x, y| Vector { x, y };
    assert_eq!(line_run(at(2, 5), at(7, 5)), (at(1, 0), 5));
    assert_eq!(line_run(at(7, 5), at(2, 5)), (at(-1, 0), 5));
    assert_eq!(line_run(at(2, 5), at(2, 9)), (at(0, 1), 4));
    assert_eq!(line_run(at(2, 9), at(2, 5)), (at(0, -1), 4));
    assert_eq!(line_run(at(2, 5), at(2, 5)), (at(0, 0), 0));
    assert_eq!(line_run(at(2, 5), at(4, 9)), (at(1, 0), 2));
    assert_eq!(line_run(at(i32::MIN, 0), at(i32::MAX, 0)), (at(1, 0), u32::MAX));
}

#[test]
fn the_status_line_keeps_the_end_of_its_right_part() {
    let st = StatusLine {
        left: "Split>File[a.txt]".to_string(),
        center: "".to_string(),
        right: "Some(\"txt\") | PrestoEdit".to_string(),
    };
    assert_eq!(
        layout_status(&st, 80),
        ("Split>File[a.txt]".to_string(), 80 - 17 - 24, "Some(\"txt\") | PrestoEdit".to_string())
    );
    assert_eq!(layout_status(&st, 27), ("Split>File[a.txt]".to_string(), 0, "PrestoEdit".to_string()));
    assert_eq!(layout_status(&st, 5), ("Split".to_string(), 0, "".to_string()));
    assert_eq!(layout_status(&st, 0), ("".to_string(), 0, "".to_string()));
}

#[test]
fn keys_become_events() {
    let none = Mods { ctrl: false, alt: false, shift: false };
    let ctrl = Mods { ctrl: true, alt: false, shift: false };
    assert_eq!(key_event(Key::Char('c'), ctrl), Some(Event::Quit));
    assert_eq!(key_event(Key::Char('c'), none), Some(Event::Key(none, 'c')));
    assert_eq!(
        key_event(Key::Char(':'), none),
        Some(Event::Key(Mods { ctrl: false, alt: false, shift: true }, ':'))
    );
    assert_eq!(key_event(Key::Char('x'), ctrl), Some(Event::Key(ctrl, 'x')));
    assert_eq!(key_event(Key::Up, none), Some(Event::Nav(none, Nav::Up)));
    assert_eq!(key_event(Key::Down, ctrl), Some(Event::Nav(ctrl, Nav::Down)));
    assert_eq!(key_event(Key::Left, none), Some(Event::Nav(none, Nav::Left)));
    assert_eq!(key_event(Key::Right, none), Some(Event::Nav(none, Nav::Right)));
    assert_eq!(key_event(Key::Esc, none), Some(Event::Nav(none, Nav::Escape)));
    assert_eq!(key_event(Key::Enter, none), Some(Event::Nav(none, Nav::Enter)));
    assert_eq!(key_event(Key::Backspace, none), Some(Event::Nav(none, Nav::BackSpace)));
    assert_eq!(key_event(Key::Other, none), None);
}
