use prestoedit::buffer::empty::EmptyBuffer;
use prestoedit::buffer::file::{filetype, FileBuffer, FileMode};
use prestoedit::buffer::hex::{HexBuffer, HexMode};
use prestoedit::buffer::hl::HighlightBuffer;
use prestoedit::buffer::logview::LogViewBuffer;
use prestoedit::buffer::split::{SplitBuffer, SplitDir};
use prestoedit::buffer::tabbed::TabbedBuffer;
use prestoedit::buffer::{create_line, Base, Buffer, CloseKind, Content, NavDir};
use prestoedit::drawer::{CursorData, CursorStyle, DrawOp, Handle, Line, TextMode};
use prestoedit::event::{Event, Mods, Nav};
use prestoedit::highlight::Color;
use prestoedit::logging::{LogLevel, LogLine};
use prestoedit::lsp::{LSPData, Request};
use prestoedit::math::{Measurement, Rect, Vector};
use prestoedit::script::{Open, SplitKind};
use prestoedit::strmap::StrMap;

const NONE: Mods = Mods { ctrl: false, alt: false, shift: false };
const CTRL: Mods = Mods { ctrl: true, alt: false, shift: false };
const UNIT: Vector = Vector { x: 1, y: 1 };

fn file(name: &str) -> Buffer {
    Buffer::new(Base::File(FileBuffer::new(name.to_string())))
}

fn file_with(name: &str, text: &str) -> Buffer {
    let mut b = file(name);
    b.load(Content::Text(text.to_string()));
    b
}

fn hex(name: &str) -> Buffer {
    Buffer::new(Base::Hex(HexBuffer::new(name.to_string())))
}

fn split(a: Buffer, b: Buffer, split_dir: SplitDir, a_active: bool) -> Buffer {
    Buffer::new(Base::Split(SplitBuffer {
        a: Box::new(a),
        b: Box::new(b),
        split_dir,
        split: Measurement::Percent(50),
        a_active,
        char_size: UNIT,
    }))
}

fn tabs(panes: Vec<Buffer>, active: usize) -> Buffer {
    Buffer::new(Base::Tabbed(TabbedBuffer {
        tabs: panes.into_iter().map(Box::new).collect(),
        active,
        char_size: UNIT,
    }))
}

fn as_file(b: &Buffer) -> &FileBuffer {
    match &b.base {
        Base::File(f) => f,
        other => panic!("not a file: {:?}", other),
    }
}

fn as_split(b: &Buffer) -> &SplitBuffer {
    match &b.base {
        Base::Split(s) => s,
        other => panic!("not a split: {:?}", other),
    }
}

fn as_tabs(b: &Buffer) -> &TabbedBuffer {
    match &b.base {
        Base::Tabbed(t) => t,
        other => panic!("not tabs: {:?}", other),
    }
}

fn links(name: &str, n: usize) -> Vec<Color> {
    (0..n).map(|_| Color::Link(name.to_string())).collect()
}

fn key(b: &mut Buffer, lsp: &mut LSPData, c: char) {
    b.event_process(Event::Key(NONE, c), lsp, Rect { x: 0, y: 0, w: 80, h: 24 });
}

fn press(b: &mut Buffer, lsp: &mut LSPData, nav: Nav) {
    b.event_process(Event::Nav(NONE, nav), lsp, Rect { x: 0, y: 0, w: 80, h: 24 });
}

#[test]
fn open_split_close() {
    let mut lsp = LSPData::new();
    let mut root = Buffer::empty();
    root.replace_focused(file("a.txt"));
    assert_eq!(root, file("a.txt"));
    assert_eq!(root.get_path(), "File[a.txt]");

    root.split_focused(SplitKind::Vertical);
    {
        let s = as_split(&root);
        assert_eq!(*s.a, file("a.txt"));
        assert_eq!(*s.b, Buffer::empty());
        assert_eq!(s.split_dir, SplitDir::Vertical);
        assert!(!s.a_active);
    }
    assert_eq!(root.get_path(), "Split>Empty");

    root.close_focused(&mut lsp);
    assert_eq!(root, file("a.txt"));
    assert_eq!(lsp.queue, vec![]);
}

#[test]
fn tab_removal_order() {
    let mut lsp = LSPData::new();
    let mut root = tabs(vec![file("a"), file("b"), file("c")], 1);
    root.close_focused(&mut lsp);
    {
        let t = as_tabs(&root);
        assert_eq!(t.tabs.len(), 3);
        assert_eq!(*t.tabs[1], Buffer::empty());
        assert_eq!(t.active, 1);
    }
    assert_eq!(lsp.queue, vec![Request::Closed { file: "b".to_string() }]);

    root.close_focused(&mut lsp);
    {
        let t = as_tabs(&root);
        assert_eq!(t.tabs.len(), 2);
        assert_eq!(*t.tabs[0], file("a"));
        assert_eq!(*t.tabs[1], file("c"));
        assert_eq!(t.active, 0);
    }
    assert_eq!(lsp.queue.len(), 1);
}

#[test]
fn closing_the_first_tab_keeps_the_index_at_zero() {
    let mut lsp = LSPData::new();
    let mut root = tabs(vec![Buffer::empty(), file("b")], 0);
    assert!(matches!(root.close(&mut lsp), CloseKind::Done));
    let t = as_tabs(&root);
    assert_eq!(t.tabs.len(), 1);
    assert_eq!(t.active, 0);
    assert_eq!(*t.tabs[0], file("b"));
}

#[test]
fn closing_the_last_tab_hands_the_pane_to_its_parent() {
    let mut lsp = LSPData::new();
    let mut root = tabs(vec![Buffer::empty()], 0);
    assert!(matches!(root.close(&mut lsp), CloseKind::This));
    assert_eq!(as_tabs(&root).tabs.len(), 0);

    let mut root = tabs(vec![Buffer::empty()], 0);
    root.close_focused(&mut lsp);
    assert_eq!(root, Buffer::empty());
}

#[test]
fn a_tabbed_pane_without_an_active_tab_is_not_well_formed() {
    let mut lsp = LSPData::new();
    let mut root = tabs(vec![file("a")], 3);
    assert!(!root.is_wf());
    assert_eq!(root.get_path(), "Tabs>");
    assert!(!root.nav(NavDir::Down));
    assert!(matches!(root.close(&mut lsp), CloseKind::This));
    assert!(tabs(vec![file("a")], 0).is_wf());
    assert!(!split(file("a"), tabs(vec![], 0), SplitDir::Vertical, true).is_wf());
}

#[test]
fn variable_scoping() {
    let name = "filetype".to_string();
    let mut root = split(file("a.txt"), Buffer::empty(), SplitDir::Horizontal, true);
    assert_eq!(root.get_var(&name), Some("txt".to_string()));
    match &mut root.base {
        Base::Split(s) => s.a_active = false,
        _ => unreachable!(),
    }
    assert_eq!(root.get_var(&name), None);

    root.vars.insert(name.clone(), "fallback".to_string());
    assert_eq!(root.get_var(&name), Some("fallback".to_string()));
    match &mut root.base {
        Base::Split(s) => s.a_active = true,
        _ => unreachable!(),
    }
    assert_eq!(root.get_var(&name), Some("txt".to_string()));
}

#[test]
fn variables_are_written_to_the_focused_leaf() {
    let mut root = split(
        file("a.txt"),
        tabs(vec![Buffer::empty(), file("b.rs")], 1),
        SplitDir::Horizontal,
        false,
    );
    root.set_var("lsp".to_string(), "rust-analyzer".to_string());
    assert_eq!(root.vars.len(), 0);
    let s = as_split(&root);
    assert_eq!(s.a.vars.get(&"lsp".to_string()), None);
    assert_eq!(s.b.vars.len(), 0);
    let t = as_tabs(&s.b);
    assert_eq!(t.tabs[0].vars.len(), 0);
    assert_eq!(t.tabs[1].vars.get(&"lsp".to_string()), Some(&"rust-analyzer".to_string()));
    assert_eq!(root.get_var(&"lsp".to_string()), Some("rust-analyzer".to_string()));
    assert_eq!(root.get_var(&"filetype".to_string()), Some("rs".to_string()));
}

#[test]
fn file_type_is_the_extension() {
    assert_eq!(filetype("a.txt"), "txt");
    assert_eq!(filetype("dir.d/main.rs"), "rs");
    assert_eq!(filetype("/usr/Makefile"), "Makefile");
    assert_eq!(filetype("a.tar.gz"), "gz");
    assert_eq!(filetype("dir/"), "");
    assert_eq!(filetype(""), "");
    assert_eq!(filetype(".hidden"), "hidden");
    assert_eq!(hex("x.bin").vars.get(&"filetype".to_string()), Some(&"bin".to_string()));
    assert_eq!(Buffer::empty().vars.len(), 0);
}

#[test]
fn navigation_along_the_axis_switches_the_active_child() {
    let mut root = split(file("a"), file("b"), SplitDir::Vertical, true);
    assert!(root.nav(NavDir::Down));
    assert!(!as_split(&root).a_active);
    assert!(!root.nav(NavDir::Down));
    assert!(!as_split(&root).a_active);
    assert!(root.nav(NavDir::Up));
    assert!(as_split(&root).a_active);
    assert!(!root.nav(NavDir::Up));
    assert!(as_split(&root).a_active);

    let mut root = split(file("a"), file("b"), SplitDir::Horizontal, true);
    assert!(root.nav(NavDir::Right));
    assert!(!as_split(&root).a_active);
    assert!(root.nav(NavDir::Left));
    assert!(as_split(&root).a_active);
}

#[test]
fn navigation_across_the_axis_is_left_to_the_active_child() {
    let mut root = split(file("a"), file("b"), SplitDir::Horizontal, true);
    assert!(!root.nav(NavDir::Down));
    assert!(as_split(&root).a_active);
    assert!(!root.nav(NavDir::Up));
    assert!(as_split(&root).a_active);

    let inner = split(file("x"), file("y"), SplitDir::Vertical, true);
    let mut root = split(inner, file("z"), SplitDir::Horizontal, true);
    assert!(root.nav(NavDir::Down));
    assert!(as_split(&root).a_active);
    assert!(!as_split(&as_split(&root).a).a_active);
    assert_eq!(*as_split(&root).b, file("z"));
}

#[test]
fn navigation_tries_inside_the_active_child_first() {
    let inner = split(file("x"), file("y"), SplitDir::Vertical, true);
    let mut root = split(inner, file("z"), SplitDir::Vertical, true);
    assert!(root.nav(NavDir::Down));
    assert!(as_split(&root).a_active);
    assert!(!as_split(&as_split(&root).a).a_active);
    assert!(root.nav(NavDir::Down));
    assert!(!as_split(&root).a_active);
}

#[test]
fn tabs_leave_navigation_to_the_active_tab() {
    let inner = split(file("x"), file("y"), SplitDir::Vertical, true);
    let mut root = tabs(vec![file("t"), inner], 1);
    assert!(root.nav(NavDir::Down));
    assert_eq!(as_tabs(&root).active, 1);
    assert!(!as_split(&as_tabs(&root).tabs[1]).a_active);
    assert!(!root.nav(NavDir::Down));
    assert!(!tabs(vec![file("t")], 0).nav(NavDir::Left));
}

#[test]
fn control_arrows_move_the_focus() {
    let mut lsp = LSPData::new();
    let mut root = split(file_with("a", "1\n2"), file("b"), SplitDir::Vertical, true);
    root.event_process(Event::Nav(CTRL, Nav::Down), &mut lsp, Rect { x: 0, y: 0, w: 80, h: 24 });
    assert!(!as_split(&root).a_active);
    assert_eq!(as_file(&as_split(&root).a).pos, Vector { x: 0, y: 0 });
    root.event_process(Event::Nav(CTRL, Nav::Up), &mut lsp, Rect { x: 0, y: 0, w: 80, h: 24 });
    assert!(as_split(&root).a_active);
    root.event_process(Event::Nav(NONE, Nav::Down), &mut lsp, Rect { x: 0, y: 0, w: 80, h: 24 });
    assert!(as_split(&root).a_active);
    assert_eq!(as_file(&as_split(&root).a).pos, Vector { x: 0, y: 1 });
    root.event_process(Event::Nav(CTRL, Nav::Enter), &mut lsp, Rect { x: 0, y: 0, w: 80, h: 24 });
    assert!(as_split(&root).a_active);
}

#[test]
fn a_leaf_asks_to_be_replaced() {
    let mut root = file("a");
    let back = root.set_focused(file("b"));
    assert_eq!(back, Some(file("b")));
    assert_eq!(root, file("a"));
    let mut root = Buffer::empty();
    assert_eq!(root.set_focused(file("b")), Some(file("b")));
    let mut root = Buffer::new(Base::LogView(LogViewBuffer {}));
    assert_eq!(root.set_focused(file("b")), Some(file("b")));
}

#[test]
fn a_container_takes_the_new_node_in() {
    let mut root = split(file("a"), Buffer::empty(), SplitDir::Vertical, false);
    assert_eq!(root.set_focused(file("b")), None);
    assert_eq!(root, split(file("a"), file("b"), SplitDir::Vertical, false));

    let mut root = tabs(vec![file("a"), split(file("x"), file("y"), SplitDir::Horizontal, true)], 1);
    root.replace_focused(hex("z"));
    assert_eq!(
        root,
        tabs(vec![file("a"), split(hex("z"), file("y"), SplitDir::Horizontal, true)], 1)
    );
    root.replace_focused(hex("z"));
    assert_eq!(
        root,
        tabs(vec![file("a"), split(hex("z"), file("y"), SplitDir::Horizontal, true)], 1)
    );
}

#[test]
fn splitting_wraps_the_focused_leaf() {
    let mut root = tabs(vec![file("a"), file("b")], 1);
    root.split_focused(SplitKind::Horizontal);
    let t = as_tabs(&root);
    assert_eq!(*t.tabs[0], file("a"));
    let s = as_split(&t.tabs[1]);
    assert_eq!(*s.a, file("b"));
    assert_eq!(*s.b, Buffer::empty());
    assert_eq!(s.split_dir, SplitDir::Horizontal);
    assert_eq!(s.split, Measurement::Percent(50));
    assert!(!s.a_active);
    assert_eq!(t.tabs[1].vars.len(), 0);

    let mut root = file("a");
    root.split_focused(SplitKind::Tabbed);
    let t = as_tabs(&root);
    assert_eq!(t.tabs.len(), 1);
    assert_eq!(*t.tabs[0], file("a"));
    assert_eq!(t.active, 0);
    assert_eq!(root.get_path(), "Tabs>File[a]");
}

#[test]
fn split_then_close_gives_the_tree_back() {
    let trees = vec![
        file("a"),
        Buffer::empty(),
        split(file("a"), file("b"), SplitDir::Vertical, true),
        split(file("a"), Buffer::empty(), SplitDir::Vertical, false),
        tabs(vec![file("a"), Buffer::empty(), hex("c")], 1),
        tabs(vec![split(hex("x"), file("y"), SplitDir::Horizontal, false)], 0),
    ];
    for kind in [SplitKind::Horizontal, SplitKind::Vertical] {
        for tree in &trees {
            let mut lsp = LSPData::new();
            let mut copy = rebuild(tree);
            copy.split_focused(kind);
            assert_ne!(&copy, tree);
            copy.close_focused(&mut lsp);
            assert_eq!(&copy, tree);
            assert_eq!(lsp.queue, vec![]);
        }
    }
}

fn rebuild(b: &Buffer) -> Buffer {
    let mut out = match &b.base {
        Base::Empty(_) => Buffer::empty(),
        Base::File(f) => file(&f.filename),
        Base::Hex(h) => hex(&h.filename),
        Base::Highlight(h) => Buffer::new(Base::Highlight(HighlightBuffer::new(&h.colors))),
        Base::LogView(_) => Buffer::new(Base::LogView(LogViewBuffer {})),
        Base::Split(s) => split(rebuild(&s.a), rebuild(&s.b), s.split_dir, s.a_active),
        Base::Tabbed(t) => tabs(t.tabs.iter().map(|p| rebuild(p)).collect(), t.active),
    };
    out.vars = b.vars.duplicate();
    out
}

#[test]
fn an_empty_leaf_with_variables_loses_them_when_split_and_closed() {
    let mut lsp = LSPData::new();
    let mut root = Buffer::empty();
    root.set_var("x".to_string(), "1".to_string());
    root.split_focused(SplitKind::Horizontal);
    root.close_focused(&mut lsp);
    assert_eq!(root, Buffer::empty());
}

#[test]
fn closing_a_file_in_a_split_leaves_an_empty_pane_first() {
    let mut lsp = LSPData::new();
    let mut root = split(file("a"), file("b"), SplitDir::Vertical, true);
    assert!(matches!(root.close(&mut lsp), CloseKind::Done));
    assert_eq!(root, split(Buffer::empty(), file("b"), SplitDir::Vertical, true));
    assert_eq!(lsp.queue, vec![Request::Closed { file: "a".to_string() }]);

    match root.close(&mut lsp) {
        CloseKind::Replace(r) => assert_eq!(*r, file("b")),
        other => panic!("unexpected {:?}", other),
    }
    assert_eq!(lsp.queue.len(), 1);
}

#[test]
fn a_split_of_two_empty_panes_collapses() {
    let mut lsp = LSPData::new();
    let mut root = split(Buffer::empty(), Buffer::empty(), SplitDir::Vertical, true);
    assert!(matches!(root.close(&mut lsp), CloseKind::This));
    root.close_focused(&mut lsp);
    assert_eq!(root, Buffer::empty());
}

#[test]
fn close_installs_what_a_child_hands_up() {
    let mut lsp = LSPData::new();
    let inner = split(Buffer::empty(), file("y"), SplitDir::Horizontal, true);
    let mut root = split(file("a"), inner, SplitDir::Vertical, false);
    assert!(matches!(root.close(&mut lsp), CloseKind::Done));
    assert_eq!(root, split(file("a"), file("y"), SplitDir::Vertical, false));

    let inner = split(Buffer::empty(), Buffer::empty(), SplitDir::Horizontal, true);
    let mut root = tabs(vec![inner, file("t")], 0);
    assert!(matches!(root.close(&mut lsp), CloseKind::Done));
    assert_eq!(root, tabs(vec![Buffer::empty(), file("t")], 0));
}

#[test]
fn closing_again_and_again_ends_with_an_empty_pane() {
    let mut lsp = LSPData::new();
    let mut root = split(
        tabs(vec![file("a"), hex("b")], 1),
        split(file("c"), Buffer::empty(), SplitDir::Horizontal, true),
        SplitDir::Vertical,
        true,
    );
    for _ in 0..20 {
        root.close_focused(&mut lsp);
        assert!(root.is_wf());
    }
    assert_eq!(root, Buffer::empty());
    assert_eq!(
        lsp.queue,
        vec![
            Request::Closed { file: "b".to_string() },
            Request::Closed { file: "a".to_string() },
            Request::Closed { file: "c".to_string() },
        ]
    );
}

#[test]
fn only_the_empty_pane_is_empty() {
    assert!(Buffer::empty().is_empty());
    assert!(EmptyBuffer {}.is_empty());
    assert!(!file("a").is_empty());
    assert!(!hex("a").is_empty());
    assert!(!split(Buffer::empty(), Buffer::empty(), SplitDir::Vertical, true).is_empty());
    assert!(!tabs(vec![], 0).is_empty());
    assert!(!Buffer::new(Base::LogView(LogViewBuffer {})).is_empty());
}

#[test]
fn breadcrumbs() {
    assert_eq!(Buffer::empty().get_path(), "Empty");
    assert_eq!(hex("/bin/ls").get_path(), "Hex[/bin/ls]");
    assert_eq!(Buffer::new(Base::LogView(LogViewBuffer {})).get_path(), "LogView");
    assert_eq!(
        Buffer::new(Base::Highlight(HighlightBuffer::new(&StrMap::new()))).get_path(),
        "Highlight"
    );
    let root = split(
        Buffer::empty(),
        tabs(vec![Buffer::empty(), file("/path")], 1),
        SplitDir::Vertical,
        false,
    );
    assert_eq!(root.get_path(), "Split>Tabs>File[/path]");
}

#[test]
fn content_arrives_in_the_order_of_layout() {
    let mut root = split(
        file("a"),
        tabs(vec![hex("b"), Buffer::empty(), file("c")], 2),
        SplitDir::Vertical,
        false,
    );
    assert_eq!(root.wants_load(), Some(("a".to_string(), Open::Text)));
    root.load(Content::Text("one\ntwo\n".to_string()));
    assert_eq!(root.wants_load(), Some(("b".to_string(), Open::Hex)));
    root.load(Content::Failed);
    assert_eq!(root.wants_load(), Some(("c".to_string(), Open::Text)));
    root.load(Content::Bytes(vec![1, 2, 3]));
    assert_eq!(root.wants_load(), None);
    root.load(Content::Text("late".to_string()));

    let s = as_split(&root);
    let a = as_file(&s.a);
    assert!(a.cached);
    assert_eq!(a.data, vec!["one".to_string(), "two".to_string()]);
    let t = as_tabs(&s.b);
    match &t.tabs[0].base {
        Base::Hex(h) => {
            assert!(h.cached);
            assert_eq!(h.data, vec![0]);
        }
        other => panic!("unexpected {:?}", other),
    }
    assert_eq!(as_file(&t.tabs[2]).data, vec!["".to_string()]);
}

#[test]
fn a_file_without_lines_shows_one_empty_line() {
    let b = file_with("a", "");
    assert_eq!(as_file(&b).data, vec!["".to_string()]);
    let mut f = FileBuffer::new("a".to_string());
    f.load(None);
    assert_eq!(f.data, vec!["".to_string()]);
    f.load(Some("ignored".to_string()));
    assert_eq!(f.data, vec!["".to_string()]);
    let mut h = HexBuffer::new("a".to_string());
    h.load(Some(vec![]));
    assert_eq!(h.data, Vec::<u8>::new());
    assert!(h.cached);
}

#[test]
fn scroll_follows_the_cursor_by_one_line() {
    let mut lsp = LSPData::new();
    let mut root = file_with("a", "0\n1\n2\n3\n4\n5\n6\n7\n8\n9");
    let size = Vector { x: 80, y: 5 };
    root.get_cursor(size, UNIT);
    root.update(size);
    assert_eq!(as_file(&root).height, 5);
    assert_eq!((as_file(&root).pos.y, as_file(&root).scroll), (0, 0));
    let expect_down = [(1, 0), (2, 0), (3, 0), (4, 0), (5, 1), (6, 2), (7, 3), (8, 4), (9, 5), (9, 5)];
    for want in expect_down {
        press(&mut root, &mut lsp, Nav::Down);
        root.update(size);
        let f = as_file(&root);
        assert_eq!((f.pos.y, f.scroll), want);
        assert!(f.pos.y - f.scroll <= f.height - 1);
        assert!(f.pos.y - f.scroll >= 1 || f.scroll == 0);
    }
    let expect_up = [(8, 5), (7, 5), (6, 5), (5, 4), (4, 3), (3, 2), (2, 1), (1, 0), (0, 0), (0, 0)];
    for want in expect_up {
        press(&mut root, &mut lsp, Nav::Up);
        root.update(size);
        let f = as_file(&root);
        assert_eq!((f.pos.y, f.scroll), want);
        assert!(f.pos.y - f.scroll <= f.height - 1);
        assert!(f.pos.y - f.scroll >= 1 || f.scroll == 0);
    }
}

#[test]
fn scroll_moves_one_line_for_each_layout_pass() {
    let mut root = file_with("a", "0\n1\n2\n3\n4\n5\n6\n7\n8\n9");
    let size = Vector { x: 80, y: 3 };
    root.get_cursor(size, UNIT);
    match &mut root.base {
        Base::File(f) => f.pos.y = 9,
        _ => unreachable!(),
    }
    root.update(size);
    assert_eq!(as_file(&root).scroll, 1);
    root.update(size);
    assert_eq!(as_file(&root).scroll, 2);
    for _ in 0..10 {
        root.update(size);
    }
    assert_eq!(as_file(&root).scroll, 7);
}

#[test]
fn the_first_layout_pass_does_not_know_the_height() {
    let mut root = file_with("a", "0\n1\n2");
    let size = Vector { x: 80, y: 5 };
    root.update(size);
    assert_eq!(as_file(&root).scroll, 1);
    root.get_cursor(size, UNIT);
    root.update(size);
    assert_eq!(as_file(&root).scroll, 0);
}

#[test]
fn update_brings_the_cursor_onto_the_text() {
    let mut root = file_with("a", "abc\nde");
    match &mut root.base {
        Base::File(f) => {
            f.pos = Vector { x: 40, y: 7 };
            f.height = 10;
        }
        _ => unreachable!(),
    }
    root.update(Vector { x: 80, y: 24 });
    assert_eq!(as_file(&root).pos, Vector { x: 2, y: 1 });
    match &mut root.base {
        Base::File(f) => f.pos = Vector { x: -3, y: -7 },
        _ => unreachable!(),
    }
    root.update(Vector { x: 80, y: 24 });
    assert_eq!(as_file(&root).pos, Vector { x: 0, y: 0 });
    match &mut root.base {
        Base::File(f) => f.pos = Vector { x: 3, y: 0 },
        _ => unreachable!(),
    }
    root.update(Vector { x: 5, y: 24 });
    assert_eq!(as_file(&root).pos, Vector { x: 0, y: 0 });
    match &mut root.base {
        Base::File(f) => f.pos = Vector { x: 40, y: 7 },
        _ => unreachable!(),
    }
    root.update(Vector { x: 3, y: 24 });
    assert_eq!(as_file(&root).pos, Vector { x: 0, y: 1 });
}

#[test]
fn a_narrow_pane_still_brings_the_cursor_onto_the_text() {
    let mut lsp = LSPData::new();
    for width in [0, 1, 2, 3, 4, 5, i32::MIN, -1] {
        let mut root = file_with("a", "abc\nde");
        press(&mut root, &mut lsp, Nav::Up);
        press(&mut root, &mut lsp, Nav::Left);
        assert_eq!(as_file(&root).pos, Vector { x: -1, y: -1 });
        root.update(Vector { x: width, y: 0 });
        assert_eq!(as_file(&root).pos, Vector { x: 0, y: 0 });
        for _ in 0..5 {
            press(&mut root, &mut lsp, Nav::Down);
            press(&mut root, &mut lsp, Nav::Right);
        }
        root.update(Vector { x: width, y: 0 });
        assert_eq!(as_file(&root).pos, Vector { x: 0, y: 1 });
    }
    let mut root = file_with("a", "abc\nde");
    for _ in 0..5 {
        press(&mut root, &mut lsp, Nav::Right);
    }
    root.update(Vector { x: 8, y: 0 });
    assert_eq!(as_file(&root).pos, Vector { x: 2, y: 0 });
    root.update(Vector { x: 7, y: 0 });
    assert_eq!(as_file(&root).pos, Vector { x: 1, y: 0 });
    root.update(Vector { x: 6, y: 0 });
    assert_eq!(as_file(&root).pos, Vector { x: 0, y: 0 });
}

#[test]
fn a_file_of_no_lines_has_a_row_for_the_cursor() {
    let mut root = file_with("a", "");
    match &mut root.base {
        Base::File(f) => f.pos = Vector { x: 9, y: 9 },
        _ => unreachable!(),
    }
    root.update(Vector { x: 80, y: 24 });
    let f = as_file(&root);
    assert!(f.data.len() >= 1);
    assert_eq!(f.pos, Vector { x: 0, y: 0 });
}

#[test]
fn editing_a_file() {
    let mut lsp = LSPData::new();
    let mut root = file_with("note.txt", "");
    key(&mut root, &mut lsp, 'x');
    assert_eq!(as_file(&root).data, vec!["".to_string()]);
    key(&mut root, &mut lsp, 'i');
    assert_eq!(as_file(&root).mode, FileMode::Insert);
    assert_eq!(as_file(&root).data, vec!["".to_string()]);
    key(&mut root, &mut lsp, 'h');
    key(&mut root, &mut lsp, 'é');
    key(&mut root, &mut lsp, 'y');
    assert_eq!(as_file(&root).data, vec!["héy".to_string()]);
    assert_eq!(as_file(&root).pos, Vector { x: 3, y: 0 });

    press(&mut root, &mut lsp, Nav::Left);
    press(&mut root, &mut lsp, Nav::Enter);
    assert_eq!(as_file(&root).data, vec!["hé".to_string(), "y".to_string()]);
    assert_eq!(as_file(&root).pos, Vector { x: 0, y: 1 });

    press(&mut root, &mut lsp, Nav::BackSpace);
    assert_eq!(as_file(&root).data, vec!["héy".to_string()]);
    assert_eq!(as_file(&root).pos, Vector { x: 2, y: 0 });

    press(&mut root, &mut lsp, Nav::BackSpace);
    assert_eq!(as_file(&root).data, vec!["hy".to_string()]);
    assert_eq!(as_file(&root).pos, Vector { x: 1, y: 0 });

    press(&mut root, &mut lsp, Nav::Escape);
    assert_eq!(as_file(&root).mode, FileMode::Normal);
    press(&mut root, &mut lsp, Nav::Enter);
    press(&mut root, &mut lsp, Nav::BackSpace);
    key(&mut root, &mut lsp, 'q');
    assert_eq!(as_file(&root).data, vec!["hy".to_string()]);
    root.event_process(Event::Key(CTRL, 'i'), &mut lsp, Rect { x: 0, y: 0, w: 80, h: 24 });
    assert_eq!(as_file(&root).mode, FileMode::Normal);
    assert_eq!(lsp.queue, vec![]);
}

#[test]
fn keys_off_the_text_are_ignored() {
    let mut lsp = LSPData::new();
    let mut root = file_with("a", "ab");
    key(&mut root, &mut lsp, 'i');
    press(&mut root, &mut lsp, Nav::Down);
    key(&mut root, &mut lsp, 'x');
    press(&mut root, &mut lsp, Nav::Enter);
    assert_eq!(as_file(&root).data, vec!["ab".to_string()]);
    assert_eq!(as_file(&root).pos, Vector { x: 0, y: 1 });
    press(&mut root, &mut lsp, Nav::Up);
    press(&mut root, &mut lsp, Nav::Up);
    key(&mut root, &mut lsp, 'x');
    press(&mut root, &mut lsp, Nav::BackSpace);
    assert_eq!(as_file(&root).data, vec!["ab".to_string()]);
    assert_eq!(as_file(&root).pos, Vector { x: 0, y: -1 });
}

#[test]
fn saving_a_file_asks_the_host_to_write_it() {
    let mut lsp = LSPData::new();
    let mut root = file_with("note.txt", "one\ntwo");
    root.event_process(Event::Save(None), &mut lsp, Rect { x: 0, y: 0, w: 80, h: 24 });
    assert_eq!(
        lsp.queue,
        vec![
            Request::WriteText { file: "note.txt".to_string(), content: "one\ntwo\n".to_string() },
            Request::Saved { file: "note.txt".to_string(), content: "one\ntwo\n".to_string() },
        ]
    );
    let before = rebuild_file(&root);
    root.event_process(
        Event::Save(Some("other.txt".to_string())),
        &mut lsp,
        Rect { x: 0, y: 0, w: 80, h: 24 },
    );
    assert_eq!(root, before);
    assert_eq!(lsp.queue.len(), 4);
    assert_eq!(
        lsp.queue[2..],
        [
            Request::WriteText { file: "other.txt".to_string(), content: "one\ntwo\n".to_string() },
            Request::Saved { file: "other.txt".to_string(), content: "one\ntwo\n".to_string() },
        ]
    );
    let taken = lsp.take();
    assert_eq!(taken.len(), 4);
    assert_eq!(lsp.queue, vec![]);

    let mut root = hex("raw.bin");
    root.load(Content::Bytes(vec![1, 2, 255]));
    root.event_process(Event::Save(None), &mut lsp, Rect { x: 0, y: 0, w: 80, h: 24 });
    root.event_process(
        Event::Save(Some("copy.bin".to_string())),
        &mut lsp,
        Rect { x: 0, y: 0, w: 80, h: 24 },
    );
    assert_eq!(
        lsp.queue,
        vec![
            Request::WriteBytes { file: "raw.bin".to_string(), data: vec![1, 2, 255] },
            Request::WriteBytes { file: "copy.bin".to_string(), data: vec![1, 2, 255] },
        ]
    );
}

fn rebuild_file(b: &Buffer) -> Buffer {
    let f = as_file(b);
    let mut out = file(&f.filename);
    match &mut out.base {
        Base::File(o) => {
            o.cached = f.cached;
            o.data = f.data.clone();
            o.pos = f.pos;
            o.scroll = f.scroll;
            o.mode = f.mode;
            o.height = f.height;
            o.char_size = f.char_size;
        }
        _ => unreachable!(),
    }
    out.vars = b.vars.duplicate();
    out
}

#[test]
fn the_pointer_places_the_cursor() {
    let mut lsp = LSPData::new();
    let mut root = file_with("a", "0\n1\n2\n3");
    root.get_cursor(Vector { x: 80, y: 24 }, Vector { x: 8, y: 16 });
    root.event_process(
        Event::Mouse(Vector { x: 110, y: 50 }, 0),
        &mut lsp,
        Rect { x: 10, y: 2, w: 80, h: 24 },
    );
    assert_eq!(as_file(&root).pos, Vector { x: 7, y: 3 });

    let mut fresh = file_with("a", "0");
    fresh.event_process(
        Event::Mouse(Vector { x: 110, y: 50 }, 0),
        &mut lsp,
        Rect { x: 10, y: 2, w: 80, h: 24 },
    );
    assert_eq!(as_file(&fresh).pos, Vector { x: -5, y: 0 });
}

#[test]
fn the_pointer_picks_the_pane_under_it() {
    let mut lsp = LSPData::new();
    let mut root = split(file_with("a", "x"), file_with("b", "y"), SplitDir::Horizontal, true);
    root.get_cursor(Vector { x: 80, y: 24 }, UNIT);
    root.nav(NavDir::Right);
    root.get_cursor(Vector { x: 80, y: 24 }, UNIT);
    root.nav(NavDir::Left);
    let coords = Rect { x: 0, y: 0, w: 80, h: 24 };
    root.event_process(Event::Mouse(Vector { x: 50, y: 3 }, 0), &mut lsp, coords);
    assert!(!as_split(&root).a_active);
    assert_eq!(as_file(&as_split(&root).b).pos, Vector { x: 5, y: 3 });
    assert_eq!(as_file(&as_split(&root).a).pos, Vector { x: 0, y: 0 });
    root.event_process(Event::Mouse(Vector { x: 39, y: 1 }, 0), &mut lsp, coords);
    assert!(as_split(&root).a_active);
    assert_eq!(as_file(&as_split(&root).a).pos, Vector { x: 34, y: 1 });

    let mut root = split(file_with("a", "x"), file_with("b", "y"), SplitDir::Vertical, true);
    root.event_process(Event::Mouse(Vector { x: 1, y: 12 }, 0), &mut lsp, coords);
    assert!(!as_split(&root).a_active);
    root.event_process(Event::Mouse(Vector { x: 1, y: 11 }, 0), &mut lsp, coords);
    assert!(as_split(&root).a_active);
}

#[test]
fn the_cursor_of_a_file() {
    let mut root = file_with("a", "0\n1\n2\n3");
    match &mut root.base {
        Base::File(f) => {
            f.pos = Vector { x: 2, y: 3 };
            f.scroll = 1;
        }
        _ => unreachable!(),
    }
    let cur = root.get_cursor(Vector { x: 640, y: 480 }, Vector { x: 8, y: 16 });
    assert_eq!(
        cur,
        CursorData::Show {
            pos: Vector { x: 2 * 8 + 5 * 8, y: 3 * 16 - 16 },
            size: Vector { x: 8, y: 16 },
            kind: CursorStyle::Block,
        }
    );
    assert_eq!(as_file(&root).height, 30);
    assert_eq!(as_file(&root).char_size, Vector { x: 8, y: 16 });
    match &mut root.base {
        Base::File(f) => f.mode = FileMode::Insert,
        _ => unreachable!(),
    }
    match root.get_cursor(Vector { x: 640, y: 480 }, Vector { x: 8, y: 0 }) {
        CursorData::Show { kind, .. } => assert_eq!(kind, CursorStyle::Bar),
        other => panic!("unexpected {:?}", other),
    }
    assert_eq!(as_file(&root).height, 0);
}

#[test]
fn the_cursor_of_bytes() {
    let mut h = HexBuffer::new("a".to_string());
    h.load(Some(vec![0; 64]));
    h.pos = Vector { x: 5, y: 2 };
    h.scroll = 1;
    let cur = h.get_cursor(Vector { x: 640, y: 480 }, Vector { x: 8, y: 16 });
    assert_eq!(
        cur,
        CursorData::Show {
            pos: Vector { x: (5 * 2 + 1) * 8 + 9 * 8, y: 2 * 16 - 16 },
            size: Vector { x: 16, y: 16 },
            kind: CursorStyle::Block,
        }
    );
    h.mode = HexMode::Insert;
    match h.get_cursor(Vector { x: 640, y: 480 }, Vector { x: 8, y: 16 }) {
        CursorData::Show { kind, .. } => assert_eq!(kind, CursorStyle::Bar),
        other => panic!("unexpected {:?}", other),
    }
}

#[test]
fn containers_move_the_cursor_to_the_active_child() {
    let size = Vector { x: 80, y: 24 };
    let mut root = split(file_with("a", "x"), file_with("b", "y"), SplitDir::Vertical, false);
    assert_eq!(
        root.get_cursor(size, UNIT),
        CursorData::Show { pos: Vector { x: 5, y: 13 }, size: UNIT, kind: CursorStyle::Block }
    );
    assert_eq!(as_file(&as_split(&root).b).height, 12);
    assert_eq!(as_split(&root).char_size, UNIT);
    let mut root = split(file_with("a", "x"), file_with("b", "y"), SplitDir::Horizontal, false);
    assert_eq!(
        root.get_cursor(size, UNIT),
        CursorData::Show { pos: Vector { x: 46, y: 0 }, size: UNIT, kind: CursorStyle::Block }
    );
    let mut root = split(file_with("a", "x"), file_with("b", "y"), SplitDir::Horizontal, true);
    assert_eq!(
        root.get_cursor(size, UNIT),
        CursorData::Show { pos: Vector { x: 5, y: 0 }, size: UNIT, kind: CursorStyle::Block }
    );
    let mut root = tabs(vec![file_with("a", "x")], 0);
    assert_eq!(
        root.get_cursor(size, Vector { x: 2, y: 3 }),
        CursorData::Show {
            pos: Vector { x: 10, y: 3 },
            size: Vector { x: 2, y: 3 },
            kind: CursorStyle::Block
        }
    );
    assert_eq!(as_tabs(&root).char_size, Vector { x: 2, y: 3 });
    assert_eq!(split(Buffer::empty(), file("b"), SplitDir::Vertical, true).get_cursor(size, UNIT), CursorData::Hidden);
    assert_eq!(tabs(vec![Buffer::empty()], 0).get_cursor(size, UNIT), CursorData::Hidden);
}

#[test]
fn a_cursor_is_moved_by_an_offset() {
    let mut cur =
        CursorData::Show { pos: Vector { x: 1, y: 2 }, size: UNIT, kind: CursorStyle::Bar };
    cur.offset(Vector { x: 10, y: -5 });
    assert_eq!(
        cur,
        CursorData::Show { pos: Vector { x: 11, y: -3 }, size: UNIT, kind: CursorStyle::Bar }
    );
    cur.offset(Vector { x: i32::MAX, y: i32::MIN });
    assert_eq!(
        cur,
        CursorData::Show {
            pos: Vector { x: i32::MAX, y: i32::MIN },
            size: UNIT,
            kind: CursorStyle::Bar
        }
    );
    let mut hidden = CursorData::Hidden;
    hidden.offset(Vector { x: 10, y: -5 });
    assert_eq!(hidden, CursorData::Hidden);
}

#[test]
fn layout_gives_each_child_its_part() {
    let mut root = split(file_with("a", "x"), file_with("b", "y"), SplitDir::Horizontal, true);
    match &mut root.base {
        Base::Split(s) => {
            match &mut s.a.base {
                Base::File(f) => f.pos.x = 100,
                _ => unreachable!(),
            }
            match &mut s.b.base {
                Base::File(f) => f.pos.x = 100,
                _ => unreachable!(),
            }
            s.split = Measurement::Chars(10);
            s.char_size = Vector { x: 2, y: 1 };
        }
        _ => unreachable!(),
    }
    match &mut root.base {
        Base::Split(s) => {
            match &mut s.a.base {
                Base::File(f) => f.data = vec!["x".repeat(200)],
                _ => unreachable!(),
            }
            match &mut s.b.base {
                Base::File(f) => f.data = vec!["y".repeat(200)],
                _ => unreachable!(),
            }
        }
        _ => unreachable!(),
    }
    root.update(Vector { x: 80, y: 24 });
    assert_eq!(as_file(&as_split(&root).a).pos.x, 20 - 6);
    assert_eq!(as_file(&as_split(&root).b).pos.x, 80 - 20 - 1 - 6);

    let mut root = tabs(vec![file_with("a", "0\n1\n2"), file_with("b", "0\n1\n2")], 0);
    match &mut root.base {
        Base::Tabbed(t) => {
            for tab in t.tabs.iter_mut() {
                match &mut tab.base {
                    Base::File(f) => f.pos.y = 100,
                    _ => unreachable!(),
                }
            }
        }
        _ => unreachable!(),
    }
    root.update(Vector { x: 80, y: 24 });
    assert_eq!(as_file(&as_tabs(&root).tabs[0]).pos.y, 2);
    assert_eq!(as_file(&as_tabs(&root).tabs[1]).pos.y, 2);
}

#[test]
fn create_line_colors_every_character() {
    assert_eq!(
        create_line("héllo".to_string()),
        Line::Text { chars: "héllo".to_string(), colors: links("fg", 5) }
    );
    assert_eq!(create_line("".to_string()), Line::Text { chars: "".to_string(), colors: vec![] });
}

fn frame<'a>(log: &'a Vec<LogLine>, char_size: Vector) -> Handle<'a> {
    Handle::new(char_size, log)
}

#[test]
fn an_empty_pane_draws_its_greeting() {
    let log = vec![];
    let mut h = frame(&log, UNIT);
    let coords = Rect { x: 1, y: 2, w: 30, h: 10 };
    Buffer::empty().draw(&mut h, coords);
    assert_eq!(
        h.ops,
        vec![DrawOp::Text {
            lines: vec![
                Line::Image { path: "lol.png".to_string(), height: 128 },
                Line::Text { chars: "        EMPTY BUFFER        ".to_string(), colors: links("fg", 28) },
                Line::Text { chars: "Press Ctrl-O to open a file!".to_string(), colors: links("fg", 28) },
            ],
            bounds: coords,
            mode: TextMode::Center,
        }]
    );
}

fn numbered(n: u32, text: &str) -> Line {
    let mut colors = links("lineNumberFg", 5);
    colors.extend(links("fg", text.chars().count()));
    Line::Text { chars: format!("{:>4} {}", n, text), colors }
}

fn blank() -> Line {
    Line::Text { chars: " ".to_string(), colors: links("lineNumberFg", 1) }
}

#[test]
fn a_file_draws_numbered_lines() {
    let log = vec![];
    let mut h = frame(&log, Vector { x: 8, y: 16 });
    let coords = Rect { x: 10, y: 20, w: 300, h: 4 };
    let mut root = file_with("a", "zero\nöne\n\nthree\nfour");
    match &mut root.base {
        Base::File(f) => f.scroll = 2,
        _ => unreachable!(),
    }
    root.draw_conts(&mut h, coords);
    assert_eq!(
        h.ops,
        vec![
            DrawOp::Rect {
                start: Vector { x: 10, y: 20 },
                size: Vector { x: 36, y: 4 },
                color: Color::Link("lineNumberBg".to_string()),
            },
            DrawOp::Line {
                start: Vector { x: 46, y: 20 },
                end: Vector { x: 46, y: 24 },
                color: Color::Link("lineNumberSplit".to_string()),
            },
            DrawOp::Text {
                lines: vec![numbered(3, ""), numbered(4, "three"), numbered(5, "four"), blank()],
                bounds: coords,
                mode: TextMode::Lines,
            },
        ]
    );

    let mut h = frame(&log, Vector { x: 3, y: 1 });
    match &mut root.base {
        Base::File(f) => f.scroll = -1,
        _ => unreachable!(),
    }
    root.draw_conts(&mut h, Rect { x: 0, y: 0, w: 10, h: 3 });
    match &h.ops[2] {
        DrawOp::Text { lines, .. } => {
            assert_eq!(lines, &vec![blank(), numbered(1, "zero"), numbered(2, "öne")])
        }
        other => panic!("unexpected {:?}", other),
    }
    match &h.ops[0] {
        DrawOp::Rect { size, .. } => assert_eq!(*size, Vector { x: 13, y: 3 }),
        other => panic!("unexpected {:?}", other),
    }
    let mut h = frame(&log, UNIT);
    root.draw_conts(&mut h, Rect { x: 0, y: 0, w: 10, h: -3 });
    match &h.ops[2] {
        DrawOp::Text { lines, .. } => assert_eq!(lines, &vec![]),
        other => panic!("unexpected {:?}", other),
    }
}

#[test]
fn bytes_are_drawn_in_rows_of_sixteen() {
    let log = vec![];
    let mut h = frame(&log, Vector { x: 2, y: 1 });
    let coords = Rect { x: 0, y: 0, w: 100, h: 3 };
    let mut pane = HexBuffer::new("a".to_string());
    let mut data: Vec<u8> = b"AB\0\x01 ~\x7f\x80".to_vec();
    data.extend((0..12).map(|i| b'a' + i));
    pane.load(Some(data));
    pane.draw_conts(&mut h, coords);

    let mut first = links("lineNumberFg", 9);
    for color in ["fg", "fg", "error", "error"] {
        first.extend(links(color, 2));
    }
    first.extend(links("fg", 1));
    for color in ["error", "fg", "fg", "error"] {
        first.extend(links(color, 2));
    }
    first.extend(links("fg", 1));
    for _ in 0..2 {
        first.extend(links("fg", 8));
        first.extend(links("fg", 1));
    }
    let mut second = links("lineNumberFg", 9);
    second.extend(links("fg", 8));
    second.extend(links("fg", 1));
    for _ in 0..3 {
        second.extend(links("fg", 8));
        second.extend(links("fg", 1));
    }
    let mut third = links("lineNumberFg", 9);
    for _ in 0..4 {
        third.extend(links("fg", 9));
    }
    assert_eq!(first.len(), 45);
    assert_eq!(
        h.ops,
        vec![
            DrawOp::Rect {
                start: Vector { x: 0, y: 0 },
                size: Vector { x: 17, y: 3 },
                color: Color::Link("lineNumberBg".to_string()),
            },
            DrawOp::Line {
                start: Vector { x: 17, y: 0 },
                end: Vector { x: 17, y: 3 },
                color: Color::Link("lineNumberSplit".to_string()),
            },
            DrawOp::Text {
                lines: vec![
                    Line::Text {
                        chars: "00000000 41420001 207E7F80 61626364 65666768 AB ..~\u{7f}.abcdefgh"
                            .to_string(),
                        colors: first,
                    },
                    Line::Text {
                        chars: "00000010 696A6B6C ........ ........ ........ ijkl".to_string(),
                        colors: second,
                    },
                    Line::Text {
                        chars: "00000014 ........ ........ ........ ........ ".to_string(),
                        colors: third,
                    },
                ],
                bounds: coords,
                mode: TextMode::Lines,
            },
        ]
    );
}

#[test]
fn bytes_scrolled_past_the_end() {
    let log = vec![];
    let mut h = frame(&log, UNIT);
    let mut pane = HexBuffer::new("a".to_string());
    pane.load(Some(vec![1, 2, 3]));
    pane.scroll = 2;
    pane.draw_conts(&mut h, Rect { x: 0, y: 0, w: 100, h: 2 });
    match &h.ops[2] {
        DrawOp::Text { lines, .. } => {
            assert_eq!(lines.len(), 2);
            for line in lines {
                match line {
                    Line::Text { chars, .. } => {
                        assert_eq!(chars, "00000020 ........ ........ ........ ........ ")
                    }
                    other => panic!("unexpected {:?}", other),
                }
            }
        }
        other => panic!("unexpected {:?}", other),
    }
}

#[test]
fn the_log_is_drawn_newest_first() {
    let log = vec![
        LogLine { level: LogLevel::Info, target: "lsp".to_string(), text: "started".to_string() },
        LogLine { level: LogLevel::Error, target: "main".to_string(), text: "bad".to_string() },
        LogLine { level: LogLevel::Debug, target: "a_target_longer_than_that".to_string(), text: "".to_string() },
        LogLine { level: LogLevel::Warn, target: "".to_string(), text: "w".to_string() },
    ];
    let mut h = frame(&log, Vector { x: 2, y: 1 });
    let coords = Rect { x: 0, y: 1, w: 100, h: 5 };
    Buffer::new(Base::LogView(LogViewBuffer {})).draw_conts(&mut h, coords);
    let row = |target: &str, text: &str, color: &str| {
        let chars = format!("{: >15} {}", target, text);
        let n = chars.chars().count();
        let mut colors = links("lineNumberFg", n.min(16));
        colors.extend(links(color, n - n.min(16)));
        Line::Text { chars, colors }
    };
    assert_eq!(
        h.ops,
        vec![
            DrawOp::Rect {
                start: Vector { x: 0, y: 1 },
                size: Vector { x: 31, y: 5 },
                color: Color::Link("lineNumberBg".to_string()),
            },
            DrawOp::Line {
                start: Vector { x: 31, y: 1 },
                end: Vector { x: 31, y: 6 },
                color: Color::Link("lineNumberSplit".to_string()),
            },
            DrawOp::Text {
                lines: vec![
                    row("", "w", "log_warn"),
                    row("a_target_longer_than_that", "", "fg"),
                    row("main", "bad", "log_error"),
                    row("lsp", "started", "log_info"),
                ],
                bounds: coords,
                mode: TextMode::Lines,
            },
        ]
    );
}

#[test]
fn the_palette_shows_each_name_in_its_color() {
    let log = vec![];
    let mut h = frame(&log, UNIT);
    let mut colors = StrMap::new();
    colors.insert("fg".to_string(), Color::Hex { r: 1, g: 2, b: 3 });
    colors.insert("error".to_string(), Color::Base16(1));
    let coords = Rect { x: 0, y: 0, w: 40, h: 10 };
    Buffer::new(Base::Highlight(HighlightBuffer::new(&colors))).draw_conts(&mut h, coords);
    let mut first = links("fg", 6);
    first.extend(links("fg", 3));
    let mut second = links("error", 6);
    second.extend(links("fg", 6));
    assert_eq!(
        h.ops,
        vec![DrawOp::Text {
            lines: vec![
                Line::Text { chars: "XXXXXX fg".to_string(), colors: first },
                Line::Text { chars: "XXXXXX error".to_string(), colors: second },
            ],
            bounds: coords,
            mode: TextMode::Lines,
        }]
    );
}

#[test]
fn a_split_draws_both_children_and_the_divider() {
    let log = vec![];
    let coords = Rect { x: 2, y: 3, w: 80, h: 25 };
    let mut h = frame(&log, UNIT);
    split(Buffer::empty(), Buffer::empty(), SplitDir::Vertical, true).draw(&mut h, coords);
    assert_eq!(h.ops.len(), 3);
    match &h.ops[0] {
        DrawOp::Text { bounds, .. } => assert_eq!(*bounds, Rect { x: 2, y: 3, w: 80, h: 12 }),
        other => panic!("unexpected {:?}", other),
    }
    match &h.ops[1] {
        DrawOp::Text { bounds, .. } => assert_eq!(*bounds, Rect { x: 2, y: 16, w: 80, h: 12 }),
        other => panic!("unexpected {:?}", other),
    }
    assert_eq!(
        h.ops[2],
        DrawOp::Line {
            start: Vector { x: 2, y: 15 },
            end: Vector { x: 82, y: 15 },
            color: Color::Link("split".to_string()),
        }
    );

    let mut h = frame(&log, UNIT);
    split(Buffer::empty(), Buffer::empty(), SplitDir::Horizontal, true).draw(&mut h, coords);
    match &h.ops[0] {
        DrawOp::Text { bounds, .. } => assert_eq!(*bounds, Rect { x: 2, y: 3, w: 40, h: 25 }),
        other => panic!("unexpected {:?}", other),
    }
    match &h.ops[1] {
        DrawOp::Text { bounds, .. } => assert_eq!(*bounds, Rect { x: 43, y: 3, w: 39, h: 25 }),
        other => panic!("unexpected {:?}", other),
    }
    assert_eq!(
        h.ops[2],
        DrawOp::Line {
            start: Vector { x: 42, y: 3 },
            end: Vector { x: 42, y: 28 },
            color: Color::Link("split".to_string()),
        }
    );
}

#[test]
fn tabs_draw_the_active_tab_below_the_bar() {
    let log = vec![];
    let mut h = frame(&log, UNIT);
    let mut root = tabs(vec![file("a"), Buffer::empty()], 1);
    root.get_cursor(Vector { x: 80, y: 24 }, Vector { x: 8, y: 16 });
    root.draw(&mut h, Rect { x: 0, y: 0, w: 80, h: 100 });
    assert_eq!(h.ops.len(), 1);
    match &h.ops[0] {
        DrawOp::Text { bounds, mode, .. } => {
            assert_eq!(*bounds, Rect { x: 0, y: 16, w: 80, h: 84 });
            assert_eq!(*mode, TextMode::Center);
        }
        other => panic!("unexpected {:?}", other),
    }
    let mut h = frame(&log, UNIT);
    tabs(vec![], 0).draw(&mut h, Rect { x: 0, y: 0, w: 80, h: 100 });
    assert_eq!(h.ops, vec![]);
}

#[test]
fn the_handle_records_what_is_drawn() {
    let log = vec![];
    let mut h = frame(&log, Vector { x: 7, y: 9 });
    assert_eq!(h.get_char_size(), Vector { x: 7, y: 9 });
    h.render_cursor(CursorData::Hidden);
    h.render_rect(Vector { x: 1, y: 2 }, Vector { x: 3, y: 4 }, Color::Base16(2));
    assert_eq!(
        h.ops,
        vec![
            DrawOp::Cursor { cur: CursorData::Hidden },
            DrawOp::Rect {
                start: Vector { x: 1, y: 2 },
                size: Vector { x: 3, y: 4 },
                color: Color::Base16(2)
            },
        ]
    );
}

#[test]
fn layout_of_bytes_keeps_the_cursor_in_the_grid() {
    let mut h = HexBuffer::new("a".to_string());
    h.load(Some(vec![7; 40]));
    h.height = 5;
    h.pos = Vector { x: 99, y: 99 };
    h.update(Vector { x: 80, y: 24 });
    assert_eq!(h.pos, Vector { x: 15, y: 39 });
    assert_eq!(h.scroll, 1);
    h.pos = Vector { x: -4, y: -4 };
    h.update(Vector { x: 80, y: 24 });
    assert_eq!(h.pos, Vector { x: 0, y: 0 });
    assert_eq!(h.scroll, 0);
    h.pos = Vector { x: 9, y: 3 };
    h.update(Vector { x: 10, y: 24 });
    assert_eq!(h.pos, Vector { x: 4, y: 3 });
    h.pos = Vector { x: 9, y: -3 };
    h.update(Vector { x: 3, y: 24 });
    assert_eq!(h.pos, Vector { x: 0, y: 0 });
    h.pos = Vector { x: 9, y: 99 };
    h.update(Vector { x: i32::MIN, y: 24 });
    assert_eq!(h.pos, Vector { x: 0, y: 39 });

    let mut empty = HexBuffer::new("a".to_string());
    empty.load(Some(vec![]));
    empty.pos = Vector { x: 20, y: 2 };
    empty.update(Vector { x: 80, y: 24 });
    assert_eq!(empty.pos, Vector { x: 20, y: 0 });
}

#[test]
fn events_of_bytes() {
    let mut lsp = LSPData::new();
    let coords = Rect { x: 4, y: 2, w: 80, h: 24 };
    let mut h = HexBuffer::new("a".to_string());
    h.load(Some(vec![7; 40]));
    h.event_process(Event::Nav(NONE, Nav::Down), &mut lsp, coords);
    h.event_process(Event::Nav(NONE, Nav::Right), &mut lsp, coords);
    h.event_process(Event::Nav(NONE, Nav::Right), &mut lsp, coords);
    h.event_process(Event::Nav(NONE, Nav::Left), &mut lsp, coords);
    h.event_process(Event::Nav(CTRL, Nav::Left), &mut lsp, coords);
    assert_eq!(h.pos, Vector { x: 1, y: 1 });
    h.event_process(Event::Nav(NONE, Nav::Up), &mut lsp, coords);
    h.event_process(Event::Nav(NONE, Nav::Up), &mut lsp, coords);
    assert_eq!(h.pos, Vector { x: 1, y: -1 });
    h.event_process(Event::Key(NONE, 'x'), &mut lsp, coords);
    assert_eq!(h.mode, HexMode::Normal);
    h.event_process(Event::Key(NONE, 'i'), &mut lsp, coords);
    assert_eq!(h.mode, HexMode::Insert);
    h.event_process(Event::Key(NONE, 'z'), &mut lsp, coords);
    h.event_process(Event::Nav(NONE, Nav::Enter), &mut lsp, coords);
    h.event_process(Event::Nav(NONE, Nav::BackSpace), &mut lsp, coords);
    assert_eq!(h.data, vec![7; 40]);
    assert_eq!(h.mode, HexMode::Insert);
    h.event_process(Event::Nav(NONE, Nav::Escape), &mut lsp, coords);
    assert_eq!(h.mode, HexMode::Normal);

    h.scroll = 3;
    h.char_size = Vector { x: 2, y: 4 };
    h.event_process(Event::Mouse(Vector { x: 104, y: 22 }, 0), &mut lsp, coords);
    assert_eq!(h.pos, Vector { x: 18, y: 8 });
    h.event_process(Event::Mouse(Vector { x: 4, y: 2 }, 0), &mut lsp, coords);
    assert_eq!(h.pos, Vector { x: -5, y: 3 });
    assert_eq!(lsp.queue, vec![]);
    assert!(!h.nav(NavDir::Up));
    assert!(matches!(h.close(&mut lsp), CloseKind::This));
    assert_eq!(lsp.queue, vec![Request::Closed { file: "a".to_string() }]);
}

#[test]
fn a_split_lays_its_children_out_one_above_the_other() {
    let mut root = split(file_with("a", "0\n1\n2"), file_with("b", "0\n1\n2"), SplitDir::Vertical, true);
    root.get_cursor(Vector { x: 80, y: 24 }, Vector { x: 1, y: 2 });
    match &mut root.base {
        Base::Split(s) => {
            for child in [&mut s.a, &mut s.b] {
                match &mut child.base {
                    Base::File(f) => f.pos = Vector { x: 100, y: 1 },
                    _ => unreachable!(),
                }
            }
            s.split = Measurement::NegPixels(4);
        }
        _ => unreachable!(),
    }
    root.update(Vector { x: 3, y: 24 });
    assert_eq!(as_file(&as_split(&root).a).pos, Vector { x: 0, y: 1 });
    assert_eq!(as_file(&as_split(&root).b).pos, Vector { x: 0, y: 1 });
    match &mut root.base {
        Base::Split(s) => {
            for child in [&mut s.a, &mut s.b] {
                match &mut child.base {
                    Base::File(f) => f.pos = Vector { x: 100, y: 1 },
                    _ => unreachable!(),
                }
            }
        }
        _ => unreachable!(),
    }
    root.update(Vector { x: 30, y: 24 });
    assert_eq!(as_file(&as_split(&root).a).pos, Vector { x: 1, y: 1 });
    assert_eq!(as_file(&as_split(&root).b).pos, Vector { x: 1, y: 1 });
    assert_eq!(as_file(&as_split(&root).a).height, 6);
}

#[test]
fn events_reach_only_the_active_child() {
    let mut lsp = LSPData::new();
    let coords = Rect { x: 0, y: 0, w: 80, h: 24 };
    let mut root = split(
        file_with("a", "x"),
        tabs(vec![file_with("b", "y"), file_with("c", "z")], 1),
        SplitDir::Vertical,
        false,
    );
    root.event_process(Event::Save(None), &mut lsp, coords);
    assert_eq!(
        lsp.queue,
        vec![
            Request::WriteText { file: "c".to_string(), content: "z\n".to_string() },
            Request::Saved { file: "c".to_string(), content: "z\n".to_string() },
        ]
    );
    root.event_process(Event::Nav(NONE, Nav::Right), &mut lsp, coords);
    let s = as_split(&root);
    assert_eq!(as_file(&s.a).pos, Vector { x: 0, y: 0 });
    assert_eq!(as_file(&as_tabs(&s.b).tabs[0]).pos, Vector { x: 0, y: 0 });
    assert_eq!(as_file(&as_tabs(&s.b).tabs[1]).pos, Vector { x: 1, y: 0 });
    root.event_process(Event::Quit, &mut lsp, coords);
    assert_eq!(lsp.queue.len(), 2);
}

#[test]
fn tabs_pass_the_pointer_on_below_the_bar() {
    let mut lsp = LSPData::new();
    let mut root = tabs(vec![file_with("b", "0\n1\n2\n3\n4\n5")], 0);
    root.get_cursor(Vector { x: 80, y: 24 }, Vector { x: 2, y: 3 });
    root.event_process(
        Event::Mouse(Vector { x: 30, y: 12 }, 0),
        &mut lsp,
        Rect { x: 0, y: 0, w: 80, h: 24 },
    );
    assert_eq!(as_file(&as_tabs(&root).tabs[0]).pos, Vector { x: 10, y: 3 });
}

#[test]
fn panes_without_a_cursor_hide_it() {
    let size = Vector { x: 80, y: 24 };
    assert_eq!(Buffer::empty().get_cursor(size, UNIT), CursorData::Hidden);
    assert_eq!(Buffer::new(Base::LogView(LogViewBuffer {})).get_cursor(size, UNIT), CursorData::Hidden);
    assert_eq!(
        Buffer::new(Base::Highlight(HighlightBuffer::new(&StrMap::new()))).get_cursor(size, UNIT),
        CursorData::Hidden
    );
}
