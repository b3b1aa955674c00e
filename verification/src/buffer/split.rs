//! The split container: two panes side by side or one above the other,
//! one of them active.

use crate::buffer::{Buffer, BufferView, CloseKind, CloseView, Content, ContentView, NavDir};
use crate::drawer::{CursorData, DrawOpView, Handle};
use crate::event::{Event, EventView, Mods, Nav};
use crate::highlight::{Color, ColorView};
use crate::logging::LogLineView;
use crate::lsp::{LSPData, RequestView};
use crate::math::{clip, clip_i64, quot, sat_add, sat_div, Measurement, Rect, Vector};
use crate::script::{Open, SplitKind};
use vstd::prelude::*;
use vstd::string::StringExecFns;

verus! {

/// The axis along which a split lays out its children: `Horizontal` puts
/// them side by side, `Vertical` one above the other.
#[derive(PartialEq, Eq, Debug, Clone, Copy, Structural)]
pub enum SplitDir {
    Horizontal,
    Vertical,
}

/// Two panes that share a region. `a` is the left or upper one.
#[derive(Debug, PartialEq)]
pub struct SplitBuffer {
    pub a: Box<Buffer>,
    pub b: Box<Buffer>,
    pub split_dir: SplitDir,
    pub split: Measurement,
    pub a_active: bool,
    pub char_size: Vector,
}

/// A split with its children as models.
pub struct SplitView {
    pub a: Box<BufferView>,
    pub b: Box<BufferView>,
    pub split_dir: SplitDir,
    pub split: Measurement,
    pub a_active: bool,
    pub char_size: Vector,
}

/// Whether a direction leads from the first child of a split to the
/// second.
pub open spec fn leads_forward(dir: NavDir, split_dir: SplitDir) -> bool {
    ||| dir == NavDir::Down && split_dir == SplitDir::Vertical
    ||| dir == NavDir::Right && split_dir == SplitDir::Horizontal
}

/// Whether a direction leads from the second child of a split to the
/// first.
pub open spec fn leads_back(dir: NavDir, split_dir: SplitDir) -> bool {
    ||| dir == NavDir::Up && split_dir == SplitDir::Vertical
    ||| dir == NavDir::Left && split_dir == SplitDir::Horizontal
}

/// The direction that a key asks focus to move in, if it is an arrow key.
pub open spec fn nav_dir(nav: Nav) -> Option<NavDir> {
    match nav {
        Nav::Up => Some(NavDir::Up),
        Nav::Down => Some(NavDir::Down),
        Nav::Left => Some(NavDir::Left),
        Nav::Right => Some(NavDir::Right),
        _ => None,
    }
}

/// What is left of a span behind a split point and the divider.
pub open spec fn rest(span: int, split: int) -> i32 {
    clip(span - split - 1) as i32
}

impl SplitView {
    /// The child that has the focus.
    pub open spec fn active(self) -> BufferView {
        if self.a_active {
            *self.a
        } else {
            *self.b
        }
    }

    /// The child that does not have the focus.
    pub open spec fn other(self) -> BufferView {
        if self.a_active {
            *self.b
        } else {
            *self.a
        }
    }

    /// The split with another pane in the place of the active child.
    pub open spec fn with_active(self, child: BufferView) -> SplitView {
        if self.a_active {
            SplitView { a: Box::new(child), ..self }
        } else {
            SplitView { b: Box::new(child), ..self }
        }
    }

    /// The split with another pane in the place of the child that is not
    /// active.
    pub open spec fn with_other(self, child: BufferView) -> SplitView {
        if self.a_active {
            SplitView { b: Box::new(child), ..self }
        } else {
            SplitView { a: Box::new(child), ..self }
        }
    }

    /// Whether every tabbed pane below has an active tab.
    pub open spec fn wf(self) -> bool
        decreases self,
    {
        self.a.wf() && self.b.wf()
    }

    /// The leaf that has the focus.
    pub open spec fn focused(self) -> BufferView
        decreases self,
    {
        if self.a_active {
            self.a.focused()
        } else {
            self.b.focused()
        }
    }

    /// The breadcrumb: the split, then its active child.
    pub open spec fn path(self) -> Seq<char>
        decreases self,
    {
        if self.a_active {
            "Split>"@ + self.a.path()
        } else {
            "Split>"@ + self.b.path()
        }
    }

    /// The value of a variable as the active child sees it.
    pub open spec fn get_var(self, name: Seq<char>) -> Option<Seq<char>>
        decreases self,
    {
        if self.a_active {
            self.a.get_var(name)
        } else {
            self.b.get_var(name)
        }
    }

    /// The split after a variable was set on the focused leaf.
    pub open spec fn set_var(self, name: Seq<char>, value: Seq<char>) -> SplitView
        decreases self,
    {
        if self.a_active {
            SplitView { a: Box::new(self.a.set_var(name, value)), ..self }
        } else {
            SplitView { b: Box::new(self.b.set_var(name, value)), ..self }
        }
    }

    /// The split after a move of focus, and whether the move was handled.
    ///
    /// Along the axis and away from the active child, the active child
    /// tries first; when it cannot move, focus crosses to the other child,
    /// and the move counts as handled either way. In every other case the
    /// active child decides.
    pub open spec fn nav(self, dir: NavDir) -> (SplitView, bool)
        decreases self,
    {
        if self.a_active {
            let (a, ok) = self.a.nav(dir);
            if leads_forward(dir, self.split_dir) {
                (SplitView { a: Box::new(a), a_active: ok, ..self }, true)
            } else {
                (SplitView { a: Box::new(a), ..self }, ok)
            }
        } else {
            let (b, ok) = self.b.nav(dir);
            if leads_back(dir, self.split_dir) {
                (SplitView { b: Box::new(b), a_active: !ok, ..self }, true)
            } else {
                (SplitView { b: Box::new(b), ..self }, ok)
            }
        }
    }

    /// The split after a new node was offered to the focus slot: the
    /// active child takes it in, or is replaced by it.
    pub open spec fn set_focused(self, child: BufferView) -> SplitView
        decreases self,
    {
        if self.a_active {
            let (a, replace) = self.a.set_focused(child);
            SplitView {
                a: Box::new(
                    if replace {
                        child
                    } else {
                        a
                    },
                ),
                ..self
            }
        } else {
            let (b, replace) = self.b.set_focused(child);
            SplitView {
                b: Box::new(
                    if replace {
                        child
                    } else {
                        b
                    },
                ),
                ..self
            }
        }
    }

    /// The split after the focused leaf was divided.
    pub open spec fn split_focused(self, kind: SplitKind) -> SplitView
        decreases self,
    {
        if self.a_active {
            SplitView { a: Box::new(self.a.split_focused(kind)), ..self }
        } else {
            SplitView { b: Box::new(self.b.split_focused(kind)), ..self }
        }
    }

    /// The split after a close, what the parent has to do, and what the
    /// host is asked.
    ///
    /// A split of two empty panes leaves itself to its parent. Otherwise
    /// the active child closes. When that child leaves itself to the split
    /// and is empty, the split dissolves: the other child moves out to
    /// take the split's place. When it is not empty, an empty pane takes its
    /// slot. A replacement that the child hands up is installed. One close
    /// takes away one level of the tree at most: a child that collapsed
    /// leaves an empty pane, and the next close dissolves the split.
    pub open spec fn close(self) -> (SplitView, CloseView, Seq<RequestView>)
        decreases self,
    {
        if self.a.is_empty() && self.b.is_empty() {
            (self, CloseView::This, Seq::empty())
        } else {
            let (child, kind, asked) = if self.a_active {
                self.a.close()
            } else {
                self.b.close()
            };
            match kind {
                CloseView::Done => (self.with_active(child), CloseView::Done, asked),
                CloseView::This => if child.is_empty() {
                    (
                        self.with_active(child).with_other(BufferView::empty()),
                        CloseView::Replace(self.other()),
                        asked,
                    )
                } else {
                    (self.with_active(BufferView::empty()), CloseView::Done, asked)
                },
                CloseView::Replace(r) => (self.with_active(r), CloseView::Done, asked),
            }
        }
    }

    /// Where the divider stands in a region of the given size, for
    /// characters of the given size.
    pub open spec fn split_point(self, size: Vector, char_size: Vector) -> i32 {
        match self.split_dir {
            SplitDir::Vertical => self.split.offset(size.y as int, char_size.y as int) as i32,
            SplitDir::Horizontal => self.split.offset(size.x as int, char_size.x as int) as i32,
        }
    }

    /// The size of the first child in a region of the given size.
    pub open spec fn first_size(self, size: Vector, split: i32) -> Vector {
        match self.split_dir {
            SplitDir::Vertical => Vector { x: size.x, y: split },
            SplitDir::Horizontal => Vector { x: split, y: size.y },
        }
    }

    /// The size of the second child in a region of the given size.
    pub open spec fn second_size(self, size: Vector, split: i32) -> Vector {
        match self.split_dir {
            SplitDir::Vertical => Vector { x: size.x, y: rest(size.y as int, split as int) },
            SplitDir::Horizontal => Vector { x: rest(size.x as int, split as int), y: size.y },
        }
    }

    /// The split after a layout pass: each child is laid out in its part.
    pub open spec fn update(self, size: Vector) -> SplitView
        decreases self,
    {
        let split = self.split_point(size, self.char_size);
        SplitView {
            a: Box::new(self.a.update(self.first_size(size, split))),
            b: Box::new(self.b.update(self.second_size(size, split))),
            ..self
        }
    }

    /// How far the second child lies from the origin of the split.
    pub open spec fn second_offset(self, split: i32) -> Vector {
        match self.split_dir {
            SplitDir::Vertical => Vector { x: 0, y: clip(split + 1) as i32 },
            SplitDir::Horizontal => Vector { x: clip(split + 1) as i32, y: 0 },
        }
    }

    /// The split after it was asked for its cursor, and the cursor: that
    /// of the active child, moved to where the child lies. Either child is
    /// told the size of the first part. The split remembers the size of a
    /// character.
    pub open spec fn get_cursor(self, size: Vector, char_size: Vector) -> (SplitView, CursorData)
        decreases self,
    {
        let split = self.split_point(size, char_size);
        let sub = self.first_size(size, split);
        if self.a_active {
            let (a, cur) = self.a.get_cursor(sub, char_size);
            (SplitView { a: Box::new(a), char_size, ..self }, cur)
        } else {
            let (b, cur) = self.b.get_cursor(sub, char_size);
            (SplitView { b: Box::new(b), char_size, ..self }, cur.moved(self.second_offset(split)))
        }
    }

    /// The half of a region in which events reach the first child.
    pub open spec fn first_half(self, coords: Rect) -> Rect {
        match self.split_dir {
            SplitDir::Horizontal => Rect { w: quot(coords.w as int, 2) as i32, ..coords },
            SplitDir::Vertical => Rect { h: quot(coords.h as int, 2) as i32, ..coords },
        }
    }

    /// The half of a region in which events reach the second child.
    pub open spec fn second_half(self, coords: Rect) -> Rect {
        let half = self.first_half(coords);
        match self.split_dir {
            SplitDir::Horizontal => Rect { x: clip(half.x + half.w) as i32, ..half },
            SplitDir::Vertical => Rect { y: clip(half.y + half.h) as i32, ..half },
        }
    }

    /// Whether a point lies in the first half of a region.
    pub open spec fn in_first_half(self, at: Vector, coords: Rect) -> bool {
        let half = self.first_half(coords);
        match self.split_dir {
            SplitDir::Horizontal => at.x < half.x + half.w,
            SplitDir::Vertical => at.y < half.y + half.h,
        }
    }

    /// The split after an event went to its first child, where `to_first`
    /// holds, or to its second, that child being active from then on.
    pub open spec fn forward(self, to_first: bool, ev: EventView, coords: Rect) -> (
        SplitView,
        Seq<RequestView>,
    )
        decreases self, 0nat,
    {
        if to_first {
            let (a, asked) = self.a.event_process(ev, self.first_half(coords));
            (SplitView { a: Box::new(a), a_active: true, ..self }, asked)
        } else {
            let (b, asked) = self.b.event_process(ev, self.second_half(coords));
            (SplitView { b: Box::new(b), a_active: false, ..self }, asked)
        }
    }

    /// The split after an event, and what the host is asked.
    ///
    /// An arrow key with control alone moves the focus. The pointer makes
    /// the child under it active and goes to that child. Every other event
    /// goes to the active child.
    pub open spec fn event_process(self, ev: EventView, coords: Rect) -> (SplitView, Seq<RequestView>)
        decreases self, 1nat,
    {
        match ev {
            EventView::Nav(mods, nav) => if mods == Mods::only_ctrl() && nav_dir(nav) is Some {
                (self.nav(nav_dir(nav)->0).0, Seq::empty())
            } else {
                self.forward(self.a_active, ev, coords)
            },
            EventView::Mouse(at, _) => self.forward(self.in_first_half(at, coords), ev, coords),
            _ => self.forward(self.a_active, ev, coords),
        }
    }

    /// The region of the first child when the split is drawn at `coords`.
    pub open spec fn first_region(self, coords: Rect, split: i32) -> Rect {
        match self.split_dir {
            SplitDir::Vertical => Rect { h: split, ..coords },
            SplitDir::Horizontal => Rect { w: split, ..coords },
        }
    }

    /// The region of the second child when the split is drawn at `coords`.
    pub open spec fn second_region(self, coords: Rect, split: i32) -> Rect {
        match self.split_dir {
            SplitDir::Vertical => Rect {
                y: clip(coords.y + split + 1) as i32,
                h: rest(coords.h as int, split as int),
                ..coords
            },
            SplitDir::Horizontal => Rect {
                x: clip(coords.x + split + 1) as i32,
                w: rest(coords.w as int, split as int),
                ..coords
            },
        }
    }

    /// The divider between the children: one cell wide, across the region.
    pub open spec fn divider(self, coords: Rect, split: i32) -> DrawOpView {
        match self.split_dir {
            SplitDir::Vertical => DrawOpView::Line {
                start: Vector { x: coords.x, y: clip(coords.y + split) as i32 },
                end: Vector { x: clip(coords.x + coords.w) as i32, y: clip(coords.y + split) as i32 },
                color: ColorView::Link("split"@),
            },
            SplitDir::Horizontal => DrawOpView::Line {
                start: Vector { x: clip(coords.x + split) as i32, y: coords.y },
                end: Vector { x: clip(coords.x + split) as i32, y: clip(coords.y + coords.h) as i32 },
                color: ColorView::Link("split"@),
            },
        }
    }

    /// What the split draws in a region: the first child, the second, and
    /// the divider between them.
    pub open spec fn drawn(self, char_size: Vector, log: Seq<LogLineView>, coords: Rect) -> Seq<
        DrawOpView,
    >
        decreases self,
    {
        let split = self.split_point(Vector { x: coords.w, y: coords.h }, char_size);
        self.a.drawn(char_size, log, self.first_region(coords, split)) + self.b.drawn(
            char_size,
            log,
            self.second_region(coords, split),
        ) + seq![self.divider(coords, split)]
    }

    /// The first file below whose content has yet to arrive.
    pub open spec fn pending(self) -> Option<(Seq<char>, Open)>
        decreases self, 0nat,
    {
        match self.a.pending() {
            Some(p) => Some(p),
            None => self.b.pending(),
        }
    }

    /// The split after content arrived for the first file that waited.
    pub open spec fn load(self, content: ContentView) -> SplitView
        decreases self, 0nat,
    {
        if self.a.pending() is Some {
            SplitView { a: Box::new(self.a.load(content)), ..self }
        } else {
            SplitView { b: Box::new(self.b.load(content)), ..self }
        }
    }
}

/// The direction that a key asks focus to move in, if it is an arrow key.
pub fn nav_direction(nav: Nav) -> (r: Option<NavDir>)
    ensures
        r == nav_dir(nav),
{
    match nav {
        Nav::Up => Some(NavDir::Up),
        Nav::Down => Some(NavDir::Down),
        Nav::Left => Some(NavDir::Left),
        Nav::Right => Some(NavDir::Right),
        _ => None,
    }
}

/// What is left of a span behind a split point and the divider.
pub fn rest_of(span: i32, split: i32) -> (r: i32)
    ensures
        r == rest(span as int, split as int),
{
    clip_i64(span as i64 - split as i64 - 1)
}

impl SplitBuffer {
    /// The model of the split.
    pub open spec fn view(&self) -> SplitView
        decreases self,
    {
        SplitView {
            a: Box::new(self.a.view()),
            b: Box::new(self.b.view()),
            split_dir: self.split_dir,
            split: self.split,
            a_active: self.a_active,
            char_size: self.char_size,
        }
    }

    /// Whether every tabbed pane below has an active tab.
    pub fn is_wf(&self) -> (r: bool)
        ensures
            r == self.view().wf(),
        decreases self,
    {
        self.a.is_wf() && self.b.is_wf()
    }

    /// The value of a variable as the active child sees it.
    pub fn get_var(&self, v: &String) -> (r: Option<String>)
        ensures
            match r {
                Some(value) => self.view().get_var(v@) == Some(value@),
                None => self.view().get_var(v@) is None,
            },
        decreases self,
    {
        if self.a_active {
            self.a.get_var(v)
        } else {
            self.b.get_var(v)
        }
    }

    /// Sets a variable on the focused leaf.
    pub fn set_var(&mut self, v: String, value: String)
        ensures
            final(self).view() == old(self).view().set_var(v@, value@),
        decreases *old(self),
    {
        if self.a_active {
            self.a.set_var(v, value);
        } else {
            self.b.set_var(v, value);
        }
    }

    /// Where the divider stands in a region of the given size.
    fn split_point(&self, size: Vector, char_size: Vector) -> (r: i32)
        ensures
            r == self.view().split_point(size, char_size),
            0 <= r,
    {
        match self.split_dir {
            SplitDir::Vertical => self.split.resolve(size.y, char_size.y),
            SplitDir::Horizontal => self.split.resolve(size.x, char_size.x),
        }
    }

    /// One layout pass: each child is laid out in its part of the region.
    pub fn update(&mut self, size: Vector)
        ensures
            final(self).view() == old(self).view().update(size),
        decreases *old(self),
    {
        let split = self.split_point(size, self.char_size);
        match self.split_dir {
            SplitDir::Vertical => {
                self.a.update(Vector { x: size.x, y: split });
                self.b.update(Vector { x: size.x, y: rest_of(size.y, split) });
            },
            SplitDir::Horizontal => {
                self.a.update(Vector { x: split, y: size.y });
                self.b.update(Vector { x: rest_of(size.x, split), y: size.y });
            },
        }
    }

    /// Draws both children and the divider between them.
    pub fn draw_conts(&self, handle: &mut Handle, coords: Rect)
        ensures
            old(handle).extended_by(
                final(handle),
                self.view().drawn(old(handle).char_size, old(handle).log_view(), coords),
            ),
        decreases self, 0nat,
    {
        let char_size = handle.get_char_size();
        let split = self.split_point(Vector { x: coords.w, y: coords.h }, char_size);
        let ghost first = self.a.view().drawn(
            char_size,
            handle.log_view(),
            self.view().first_region(coords, split),
        );
        let ghost second = self.b.view().drawn(
            char_size,
            handle.log_view(),
            self.view().second_region(coords, split),
        );
        match self.split_dir {
            SplitDir::Vertical => {
                let at = clip_i64(coords.y as i64 + split as i64);
                self.a.draw(handle, Rect { x: coords.x, y: coords.y, w: coords.w, h: split });
                self.b.draw(
                    handle,
                    Rect {
                        x: coords.x,
                        y: clip_i64(coords.y as i64 + split as i64 + 1),
                        w: coords.w,
                        h: rest_of(coords.h, split),
                    },
                );
                handle.render_line(
                    Vector { x: coords.x, y: at },
                    Vector { x: sat_add(coords.x, coords.w), y: at },
                    Color::link("split"),
                );
            },
            SplitDir::Horizontal => {
                let at = clip_i64(coords.x as i64 + split as i64);
                self.a.draw(handle, Rect { x: coords.x, y: coords.y, w: split, h: coords.h });
                self.b.draw(
                    handle,
                    Rect {
                        x: clip_i64(coords.x as i64 + split as i64 + 1),
                        y: coords.y,
                        w: rest_of(coords.w, split),
                        h: coords.h,
                    },
                );
                handle.render_line(
                    Vector { x: at, y: coords.y },
                    Vector { x: at, y: sat_add(coords.y, coords.h) },
                    Color::link("split"),
                );
            },
        }
        assert(handle.drawn() =~= old(handle).drawn() + (first + second + seq![
            self.view().divider(coords, split),
        ]));
    }

    /// Where the cursor is drawn: the cursor of the active child, moved
    /// to where that child lies.
    pub fn get_cursor(&mut self, size: Vector, char_size: Vector) -> (cur: CursorData)
        ensures
            (final(self).view(), cur) == old(self).view().get_cursor(size, char_size),
        decreases *old(self),
    {
        self.char_size = char_size;
        let split = self.split_point(size, char_size);
        let sub = match self.split_dir {
            SplitDir::Vertical => Vector { x: size.x, y: split },
            SplitDir::Horizontal => Vector { x: split, y: size.y },
        };
        if self.a_active {
            self.a.get_cursor(sub, char_size)
        } else {
            let mut cur = self.b.get_cursor(sub, char_size);
            let by = match self.split_dir {
                SplitDir::Vertical => Vector { x: 0, y: sat_add(split, 1) },
                SplitDir::Horizontal => Vector { x: sat_add(split, 1), y: 0 },
            };
            cur.offset(by);
            cur
        }
    }

    /// Whether a point lies in the half of the first child.
    fn in_first_half(&self, at: Vector, coords: Rect) -> (r: bool)
        ensures
            r == self.view().in_first_half(at, coords),
    {
        match self.split_dir {
            SplitDir::Horizontal => {
                let half = sat_div(coords.w, 2);
                (at.x as i64) < coords.x as i64 + half as i64
            },
            SplitDir::Vertical => {
                let half = sat_div(coords.h, 2);
                (at.y as i64) < coords.y as i64 + half as i64
            },
        }
    }

    /// Hands an event to one child, which is active from then on.
    fn forward(&mut self, to_first: bool, ev: Event, lsp: &mut LSPData, coords: Rect)
        ensures
            final(self).view() == old(self).view().forward(to_first, ev@, coords).0,
            final(lsp)@ == old(lsp)@ + old(self).view().forward(to_first, ev@, coords).1,
        decreases *old(self), 0nat,
    {
        self.a_active = to_first;
        let mut half = coords;
        match self.split_dir {
            SplitDir::Horizontal => {
                half.w = sat_div(coords.w, 2);
                if !to_first {
                    half.x = sat_add(half.x, half.w);
                }
            },
            SplitDir::Vertical => {
                half.h = sat_div(coords.h, 2);
                if !to_first {
                    half.y = sat_add(half.y, half.h);
                }
            },
        }
        if to_first {
            self.a.event_process(ev, lsp, half);
        } else {
            self.b.event_process(ev, lsp, half);
        }
    }

    /// Routes one event: focus moves are handled here, the pointer picks
    /// the child under it, and everything else goes to the active child.
    pub fn event_process(&mut self, ev: Event, lsp: &mut LSPData, coords: Rect)
        ensures
            final(self).view() == old(self).view().event_process(ev@, coords).0,
            final(lsp)@ == old(lsp)@ + old(self).view().event_process(ev@, coords).1,
        decreases *old(self), 1nat,
    {
        let to_first = match &ev {
            Event::Nav(mods, nav) => {
                if mods.is_only_ctrl() {
                    match nav_direction(*nav) {
                        Some(dir) => {
                            self.nav(dir);
                            return ;
                        },
                        None => {},
                    }
                }
                self.a_active
            },
            Event::Mouse(at, _) => self.in_first_half(*at, coords),
            _ => self.a_active,
        };
        self.forward(to_first, ev, lsp, coords);
    }

    /// Moves the focus in a direction.
    pub fn nav(&mut self, dir: NavDir) -> (handled: bool)
        ensures
            (final(self).view(), handled) == old(self).view().nav(dir),
            !leads_forward(dir, old(self).split_dir) && !leads_back(dir, old(self).split_dir)
                ==> final(self).a_active == old(self).a_active,
        decreases *old(self),
    {
        if self.a_active {
            let ok = self.a.nav(dir);
            let forward = match (dir, self.split_dir) {
                (NavDir::Down, SplitDir::Vertical) => true,
                (NavDir::Right, SplitDir::Horizontal) => true,
                _ => false,
            };
            if forward {
                if !ok {
                    self.a_active = false;
                }
                true
            } else {
                ok
            }
        } else {
            let ok = self.b.nav(dir);
            let back = match (dir, self.split_dir) {
                (NavDir::Up, SplitDir::Vertical) => true,
                (NavDir::Left, SplitDir::Horizontal) => true,
                _ => false,
            };
            if back {
                if !ok {
                    self.a_active = true;
                }
                true
            } else {
                ok
            }
        }
    }

    /// The breadcrumb: the split, then its active child.
    pub fn get_path(&self) -> (s: String)
        ensures
            s@ == self.view().path(),
        decreases self,
    {
        let mut s = "Split>".to_string();
        let below = if self.a_active {
            self.a.get_path()
        } else {
            self.b.get_path()
        };
        s.append(below.as_str());
        s
    }

    /// Offers a new node to the focus slot: the active child takes it in,
    /// or is replaced by it.
    pub fn set_focused(&mut self, child: Buffer)
        ensures
            final(self).view() == old(self).view().set_focused(child@),
        decreases *old(self),
    {
        if self.a_active {
            match self.a.set_focused(child) {
                Some(c) => {
                    self.a = Box::new(c);
                },
                None => {},
            }
        } else {
            match self.b.set_focused(child) {
                Some(c) => {
                    self.b = Box::new(c);
                },
                None => {},
            }
        }
    }

    /// Divides the focused leaf.
    pub fn split_focused(&mut self, kind: SplitKind)
        ensures
            final(self).view() == old(self).view().split_focused(kind),
        decreases *old(self),
    {
        if self.a_active {
            self.a.split_focused(kind);
        } else {
            self.b.split_focused(kind);
        }
    }

    /// Closes what has the focus. Where the split dissolves, the child
    /// that survives moves out into the result and leaves an empty pane
    /// behind.
    pub fn close(&mut self, lsp: &mut LSPData) -> (kind: CloseKind)
        ensures
            final(self).view() == old(self).view().close().0,
            kind@ == old(self).view().close().1,
            final(lsp)@ == old(lsp)@ + old(self).view().close().2,
        decreases *old(self),
    {
        if self.a.is_empty() && self.b.is_empty() {
            return CloseKind::This;
        }
        if self.a_active {
            match self.a.close(lsp) {
                CloseKind::Done => CloseKind::Done,
                CloseKind::This => {
                    if self.a.is_empty() {
                        let mut other = Box::new(Buffer::empty());
                        std::mem::swap(&mut self.b, &mut other);
                        CloseKind::Replace(other)
                    } else {
                        self.a = Box::new(Buffer::empty());
                        CloseKind::Done
                    }
                },
                CloseKind::Replace(r) => {
                    self.a = r;
                    CloseKind::Done
                },
            }
        } else {
            match self.b.close(lsp) {
                CloseKind::Done => CloseKind::Done,
                CloseKind::This => {
                    if self.b.is_empty() {
                        let mut other = Box::new(Buffer::empty());
                        std::mem::swap(&mut self.a, &mut other);
                        CloseKind::Replace(other)
                    } else {
                        self.b = Box::new(Buffer::empty());
                        CloseKind::Done
                    }
                },
                CloseKind::Replace(r) => {
                    self.b = r;
                    CloseKind::Done
                },
            }
        }
    }

    /// The first file below whose content has yet to arrive.
    pub fn wants_load(&self) -> (r: Option<(String, Open)>)
        ensures
            match r {
                Some((name, kind)) => self.view().pending() == Some((name@, kind)),
                None => self.view().pending() is None,
            },
        decreases self, 0nat,
    {
        match self.a.wants_load() {
            Some(p) => Some(p),
            None => self.b.wants_load(),
        }
    }

    /// Takes content for the first file below that waited for it.
    pub fn load(&mut self, content: Content)
        ensures
            final(self).view() == old(self).view().load(content@),
        decreases *old(self), 0nat,
    {
        if self.a.wants_load().is_some() {
            self.a.load(content);
        } else {
            self.b.load(content);
        }
    }
}

} // verus!
