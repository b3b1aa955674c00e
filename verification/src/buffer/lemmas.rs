//! What holds of the pane tree whatever is done to it: closing never
//! leaves it without a focused leaf, dividing a leaf and closing at once
//! gives the tree back, a move across the axis of a split stays inside
//! the active child, a node put in the focus slot is where the focus is,
//! the scroll offset of a file follows its cursor, a variable is written
//! to the focused leaf, and content that arrives is taken by a file that
//! waited for it.

use crate::buffer::file::FileView;
use crate::buffer::split::{leads_back, leads_forward, SplitView};
use crate::buffer::tabbed::TabbedView;
use crate::buffer::{BaseView, BufferView, CloseView, ContentView, NavDir};
use crate::event::{EventView, Mods, Nav};
use crate::lsp::RequestView;
use crate::math::{Rect, Vector};
use crate::script::SplitKind;
use vstd::prelude::*;

verus! {

/// In a well-formed tree the active children lead to a leaf.
pub proof fn lemma_focused_is_leaf(b: BufferView)
    requires
        b.wf(),
    ensures
        b.focused().is_leaf(),
        b.focused().wf(),
    decreases b,
{
    match b.base {
        BaseView::Split(s) => {
            if s.a_active {
                lemma_focused_is_leaf(*s.a);
            } else {
                lemma_focused_is_leaf(*s.b);
            }
        },
        BaseView::Tabbed(t) => {
            lemma_focused_is_leaf(t.tabs[t.active]);
        },
        _ => {},
    }
}

/// A close leaves a well-formed tree behind, unless the node has to go;
/// and what it hands up to take the node's place is well formed.
pub proof fn lemma_close_wf(b: BufferView)
    requires
        b.wf(),
    ensures
        b.close().1 is Done ==> b.close().0.wf(),
        b.close().1 matches CloseView::Replace(r) ==> r.wf(),
    decreases b,
{
    match b.base {
        BaseView::Split(s) => {
            if s.a_active {
                lemma_close_wf(*s.a);
            } else {
                lemma_close_wf(*s.b);
            }
            assert(BufferView::empty().wf());
            assert(s.close().1 is Done ==> s.close().0.wf());
        },
        BaseView::Tabbed(t) => {
            lemma_close_wf(t.tabs[t.active]);
            let after = t.close().0;
            assert forall|i: int| 0 <= i < after.tabs.len() implies (
            #[trigger] after.tabs[i]).wf() by {}
        },
        _ => {},
    }
}

/// The tree after `n` closes at the root.
pub open spec fn closed(b: BufferView, n: nat) -> BufferView
    decreases n,
{
    if n == 0 {
        b
    } else {
        closed(b, (n - 1) as nat).close_focused()
    }
}

/// Closing never orphans the tree: after any number of closes at the root
/// the tree is well formed, so it has a pane, and the active children lead
/// to exactly one leaf, which has the focus.
pub proof fn lemma_close_never_orphans(b: BufferView, n: nat)
    requires
        b.wf(),
    ensures
        closed(b, n).wf(),
        closed(b, n).focused().is_leaf(),
    decreases n,
{
    if n > 0 {
        lemma_close_never_orphans(b, (n - 1) as nat);
        lemma_close_wf(closed(b, (n - 1) as nat));
    }
    lemma_focused_is_leaf(closed(b, n));
}

/// What a close does right after the focused leaf was divided in two: the
/// empty half goes, nothing is asked of the host, and
/// - a leaf that was divided is handed up to take the split's place, or,
///   if it was empty itself, the split leaves itself to its parent;
/// - a container is as it was before.
///
/// An empty leaf that holds variables is left out: the empty pane that
/// takes its place after the close holds none.
pub proof fn lemma_split_close(b: BufferView, kind: SplitKind)
    requires
        b.wf(),
        kind != SplitKind::Tabbed,
        b.focused().is_empty() ==> b.focused() == BufferView::empty(),
    ensures
        b.split_focused(kind).close().2 == Seq::<RequestView>::empty(),
        b.is_leaf() && b.is_empty() ==> b.split_focused(kind).close().1 is This,
        b.is_leaf() && !b.is_empty() ==> b.split_focused(kind).close().1 == CloseView::Replace(b),
        !b.is_leaf() ==> b.split_focused(kind).close().1 is Done && b.split_focused(
            kind,
        ).close().0 == b,
        !b.split_focused(kind).is_empty(),
    decreases b,
{
    match b.base {
        BaseView::Split(s) => {
            lemma_split_close(s.active(), kind);
            assert(s.split_focused(kind).close().0 == s);
        },
        BaseView::Tabbed(t) => {
            lemma_split_close(t.tabs[t.active], kind);
            assert(t.split_focused(kind).close().0.tabs =~= t.tabs);
        },
        _ => {
            assert(b.divided(kind).base->Split_0.close().2 == Seq::<RequestView>::empty());
        },
    }
}

/// Dividing the focused leaf in two and closing at once gives the tree
/// back, and asks nothing of the host.
///
/// An empty leaf that holds variables is left out: the empty pane that
/// takes its place after the close holds none.
pub proof fn lemma_split_then_close(b: BufferView, kind: SplitKind)
    requires
        b.wf(),
        kind != SplitKind::Tabbed,
        b.focused().is_empty() ==> b.focused() == BufferView::empty(),
    ensures
        b.split_focused(kind).close_focused() == b,
        b.split_focused(kind).close().2 == Seq::<RequestView>::empty(),
{
    lemma_split_close(b, kind);
}

/// A move that does not run along the axis of a split is left to the
/// active child: the split reports what the child reports, and neither
/// the active side nor the other child changes.
pub proof fn lemma_nav_across_axis(s: SplitView, dir: NavDir)
    requires
        !leads_forward(dir, s.split_dir),
        !leads_back(dir, s.split_dir),
    ensures
        s.nav(dir).1 == s.active().nav(dir).1,
        s.nav(dir).0 == s.with_active(s.active().nav(dir).0),
        s.nav(dir).0.a_active == s.a_active,
        s.nav(dir).0.other() == s.other(),
{
}

/// A move through the tree keeps it well formed.
pub proof fn lemma_nav_wf(b: BufferView, dir: NavDir)
    requires
        b.wf(),
    ensures
        b.nav(dir).0.wf(),
    decreases b,
{
    match b.base {
        BaseView::Split(s) => {
            if s.a_active {
                lemma_nav_wf(*s.a, dir);
            } else {
                lemma_nav_wf(*s.b, dir);
            }
        },
        BaseView::Tabbed(t) => {
            lemma_nav_wf(t.tabs[t.active], dir);
        },
        _ => {},
    }
}

/// Dividing the focused leaf keeps the tree well formed.
pub proof fn lemma_split_wf(b: BufferView, kind: SplitKind)
    requires
        b.wf(),
    ensures
        b.split_focused(kind).wf(),
    decreases b,
{
    match b.base {
        BaseView::Split(s) => {
            if s.a_active {
                lemma_split_wf(*s.a, kind);
            } else {
                lemma_split_wf(*s.b, kind);
            }
        },
        BaseView::Tabbed(t) => {
            lemma_split_wf(t.tabs[t.active], kind);
        },
        _ => {
            assert(BufferView::empty().wf());
            assert(b.divided(kind).wf());
        },
    }
}

/// A leaf that is offered a new node asks its caller to put the node in
/// its place, and does not change.
pub proof fn lemma_leaf_set_focused(b: BufferView, child: BufferView)
    requires
        b.is_leaf(),
    ensures
        b.set_focused(child) == (b, true),
        b.replace_focused(child) == child,
{
}

/// After a node was put in the focus slot, the focus is where it is in
/// that node, and the tree is well formed if the node is.
pub proof fn lemma_replace_focused(b: BufferView, child: BufferView)
    requires
        b.wf(),
        child.wf(),
    ensures
        b.replace_focused(child).wf(),
        b.replace_focused(child).focused() == child.focused(),
    decreases b,
{
    match b.base {
        BaseView::Split(s) => {
            if s.a_active {
                lemma_replace_focused(*s.a, child);
            } else {
                lemma_replace_focused(*s.b, child);
            }
        },
        BaseView::Tabbed(t) => {
            lemma_replace_focused(t.tabs[t.active], child);
        },
        _ => {},
    }
}

/// Putting a leaf in the focus slot twice is the same as putting it there
/// once.
pub proof fn lemma_replace_focused_twice(b: BufferView, leaf: BufferView)
    requires
        b.wf(),
        leaf.is_leaf(),
    ensures
        b.replace_focused(leaf).replace_focused(leaf) == b.replace_focused(leaf),
    decreases b,
{
    match b.base {
        BaseView::Split(s) => {
            if s.a_active {
                lemma_replace_focused_twice(*s.a, leaf);
            } else {
                lemma_replace_focused_twice(*s.b, leaf);
            }
        },
        BaseView::Tabbed(t) => {
            lemma_replace_focused_twice(t.tabs[t.active], leaf);
            assert(t.set_focused(leaf).set_focused(leaf).tabs =~= t.set_focused(leaf).tabs);
        },
        _ => {},
    }
}

/// Putting the focused leaf itself in the focus slot changes nothing:
/// only the leaf is replaced, and the rest of the tree stays.
pub proof fn lemma_replace_focused_same(b: BufferView)
    requires
        b.wf(),
    ensures
        b.replace_focused(b.focused()) == b,
    decreases b,
{
    match b.base {
        BaseView::Split(s) => {
            if s.a_active {
                lemma_replace_focused_same(*s.a);
            } else {
                lemma_replace_focused_same(*s.b);
            }
        },
        BaseView::Tabbed(t) => {
            lemma_replace_focused_same(t.tabs[t.active]);
            assert(t.set_focused(b.focused()).tabs =~= t.tabs);
        },
        _ => {},
    }
}

/// Whether the cursor row of a file is inside the scroll margin: at most
/// on the last row but one that shows, and at least on the second, unless
/// nothing is scrolled away.
pub open spec fn scroll_in_bounds(f: FileView) -> bool {
    &&& 0 <= f.scroll
    &&& f.pos.y - f.scroll <= f.height - 1
    &&& (f.pos.y - f.scroll >= 1 || f.scroll == 0)
}

/// Whether the cursor of a file stands on one of its rows.
pub open spec fn on_a_row(f: FileView) -> bool {
    0 <= f.pos.y < f.data.len() <= i32::MAX
}

/// Whether an event is a plain arrow key up or down.
pub open spec fn is_vertical_move(ev: EventView) -> bool {
    ||| ev == EventView::Nav(Mods::none(), Nav::Up)
    ||| ev == EventView::Nav(Mods::none(), Nav::Down)
}

/// One vertical cursor move and the layout pass that follows keep the
/// scroll offset in bounds. The pane shows two rows or more.
pub proof fn lemma_scroll_step(f: FileView, ev: EventView, coords: Rect, size: Vector)
    requires
        f.height >= 2,
        on_a_row(f),
        scroll_in_bounds(f),
        is_vertical_move(ev),
    ensures
        on_a_row(f.after_event(ev, coords).updated(size)),
        scroll_in_bounds(f.after_event(ev, coords).updated(size)),
        f.after_event(ev, coords).updated(size).height == f.height,
        f.after_event(ev, coords).updated(size).data == f.data,
{
}

/// The file after a sequence of vertical cursor moves, each followed by a
/// layout pass; `true` moves down, `false` up.
pub open spec fn after_moves(f: FileView, downs: Seq<bool>, coords: Rect, size: Vector) -> FileView
    decreases downs.len(),
{
    if downs.len() == 0 {
        f
    } else {
        let ev = EventView::Nav(
            Mods::none(),
            if downs.last() {
                Nav::Down
            } else {
                Nav::Up
            },
        );
        after_moves(f, downs.drop_last(), coords, size).after_event(ev, coords).updated(size)
    }
}

/// Scroll stays in bounds: after any sequence of vertical cursor moves,
/// each followed by a layout pass, the cursor row is inside the scroll
/// margin.
pub proof fn lemma_scroll_stays_in_bounds(
    f: FileView,
    downs: Seq<bool>,
    coords: Rect,
    size: Vector,
)
    requires
        f.height >= 2,
        on_a_row(f),
        scroll_in_bounds(f),
    ensures
        scroll_in_bounds(after_moves(f, downs, coords, size)),
        on_a_row(after_moves(f, downs, coords, size)),
        after_moves(f, downs, coords, size).height == f.height,
        after_moves(f, downs, coords, size).data == f.data,
    decreases downs.len(),
{
    if downs.len() > 0 {
        lemma_scroll_stays_in_bounds(f, downs.drop_last(), coords, size);
        let before = after_moves(f, downs.drop_last(), coords, size);
        let ev = EventView::Nav(
            Mods::none(),
            if downs.last() {
                Nav::Down
            } else {
                Nav::Up
            },
        );
        lemma_scroll_step(before, ev, coords, size);
    }
}

/// A variable that was set is what the tree then says of it.
pub proof fn lemma_set_then_get(b: BufferView, name: Seq<char>, value: Seq<char>)
    ensures
        b.set_var(name, value).get_var(name) == Some(value),
    decreases b,
{
    match b.base {
        BaseView::Split(s) => {
            if s.a_active {
                lemma_set_then_get(*s.a, name, value);
            } else {
                lemma_set_then_get(*s.b, name, value);
            }
        },
        BaseView::Tabbed(t) => {
            if t.has_active() {
                lemma_set_then_get(t.tabs[t.active], name, value);
            }
        },
        _ => {},
    }
}

/// A variable is written to the focused leaf and nowhere else: setting it
/// is putting the leaf with the variable in the place of the leaf.
pub proof fn lemma_set_var_on_leaf(b: BufferView, name: Seq<char>, value: Seq<char>)
    requires
        b.wf(),
    ensures
        b.set_var(name, value) == b.replace_focused(
            BufferView { vars: b.focused().vars.insert(name, value), ..b.focused() },
        ),
    decreases b,
{
    match b.base {
        BaseView::Split(s) => {
            if s.a_active {
                lemma_set_var_on_leaf(*s.a, name, value);
            } else {
                lemma_set_var_on_leaf(*s.b, name, value);
            }
        },
        BaseView::Tabbed(t) => {
            lemma_set_var_on_leaf(t.tabs[t.active], name, value);
        },
        _ => {},
    }
}

/// The number of files in the tree whose content has yet to arrive.
pub open spec fn waiting(b: BufferView) -> nat
    decreases b, 0nat,
{
    match b.base {
        BaseView::File(f) => if f.cached {
            0
        } else {
            1
        },
        BaseView::Hex(h) => if h.cached {
            0
        } else {
            1
        },
        BaseView::Split(s) => waiting(*s.a) + waiting(*s.b),
        BaseView::Tabbed(t) => waiting_tabs(t, t.tabs.len()),
        _ => 0,
    }
}

/// The number of files in the first `n` tabs whose content has yet to
/// arrive.
pub open spec fn waiting_tabs(t: TabbedView, n: nat) -> nat
    decreases t, n,
{
    if n == 0 || n > t.tabs.len() {
        0
    } else {
        waiting_tabs(t, (n - 1) as nat) + waiting(t.tabs[n - 1])
    }
}

/// The tab that the search for a waiting file finds is the first that
/// holds one.
pub proof fn lemma_waiting_tab(t: TabbedView, from: int)
    requires
        0 <= from <= t.tabs.len(),
    ensures
        from <= t.waiting_tab(from) <= t.tabs.len(),
        forall|k: int| from <= k < t.waiting_tab(from) ==> (#[trigger] t.tabs[k]).pending() is None,
        t.waiting_tab(from) < t.tabs.len() ==> t.tabs[t.waiting_tab(from)].pending() is Some,
    decreases t.tabs.len() - from,
{
    if from < t.tabs.len() && t.tabs[from].pending() is None {
        lemma_waiting_tab(t, from + 1);
    }
}

/// The count over the tabs changes with one tab by what that tab changes.
pub proof fn lemma_waiting_tabs_update(t: TabbedView, i: int, tab: BufferView, n: nat)
    requires
        0 <= i < t.tabs.len(),
        n <= t.tabs.len(),
    ensures
        waiting_tabs(TabbedView { tabs: t.tabs.update(i, tab), ..t }, n) == if i < n {
            waiting_tabs(t, n) - waiting(t.tabs[i]) + waiting(tab)
        } else {
            waiting_tabs(t, n) as int
        },
    decreases n,
{
    if n > 0 {
        lemma_waiting_tabs_update(t, i, tab, (n - 1) as nat);
    }
}

/// Tabs that hold no waiting file count nothing.
pub proof fn lemma_waiting_tabs_none(t: TabbedView, n: nat)
    requires
        n <= t.tabs.len(),
        forall|k: int| 0 <= k < n ==> waiting(#[trigger] t.tabs[k]) == 0,
    ensures
        waiting_tabs(t, n) == 0,
    decreases n,
{
    if n > 0 {
        lemma_waiting_tabs_none(t, (n - 1) as nat);
    }
}

/// The count over the tabs is at least what one of them counts.
pub proof fn lemma_waiting_tabs_some(t: TabbedView, i: int, n: nat)
    requires
        0 <= i < n <= t.tabs.len(),
    ensures
        waiting_tabs(t, n) >= waiting(t.tabs[i]),
    decreases n,
{
    if i < n - 1 {
        lemma_waiting_tabs_some(t, i, (n - 1) as nat);
    }
}

/// A tree asks for content exactly while a file in it waits for some.
pub proof fn lemma_pending_iff_waiting(b: BufferView)
    ensures
        b.pending() is Some <==> waiting(b) > 0,
    decreases b,
{
    match b.base {
        BaseView::Split(s) => {
            lemma_pending_iff_waiting(*s.a);
            lemma_pending_iff_waiting(*s.b);
        },
        BaseView::Tabbed(t) => {
            lemma_waiting_tab(t, 0);
            let i = t.waiting_tab(0);
            assert forall|k: int| 0 <= k < t.tabs.len() implies (
            (#[trigger] t.tabs[k]).pending() is Some <==> waiting(t.tabs[k]) > 0) by {
                lemma_pending_iff_waiting(t.tabs[k]);
            }
            if i < t.tabs.len() {
                lemma_waiting_tabs_some(t, i, t.tabs.len());
            } else {
                lemma_waiting_tabs_none(t, t.tabs.len());
            }
        },
        _ => {},
    }
}

/// Content that arrives is taken by one file that waited: the host that
/// reads and hands over while the tree asks comes to an end.
pub proof fn lemma_load_progress(b: BufferView, content: ContentView)
    requires
        b.pending() is Some,
    ensures
        waiting(b.load(content)) == waiting(b) - 1,
    decreases b,
{
    match b.base {
        BaseView::Split(s) => {
            if s.a.pending() is Some {
                lemma_load_progress(*s.a, content);
            } else {
                lemma_load_progress(*s.b, content);
            }
        },
        BaseView::Tabbed(t) => {
            lemma_waiting_tab(t, 0);
            let i = t.waiting_tab(0);
            lemma_load_progress(t.tabs[i], content);
            lemma_waiting_tabs_update(t, i, t.tabs[i].load(content), t.tabs.len());
        },
        _ => {},
    }
}

} // verus!
