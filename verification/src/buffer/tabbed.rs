//! The tabbed container: panes stacked in one region, one of them active.

use crate::buffer::{Buffer, BufferView, CloseKind, CloseView, Content, ContentView, NavDir};
use crate::drawer::{CursorData, DrawOpView, Handle};
use crate::event::{Event, EventView};
use crate::logging::LogLineView;
use crate::lsp::{LSPData, RequestView};
use crate::math::{clip, sat_add, sat_sub, Rect, Vector};
use crate::script::{Open, SplitKind};
use vstd::prelude::*;
use vstd::string::StringExecFns;

verus! {

/// Panes stacked as tabs. `active` is the index of the tab that shows.
#[derive(Debug, PartialEq)]
pub struct TabbedBuffer {
    pub tabs: Vec<Box<Buffer>>,
    pub active: usize,
    pub char_size: Vector,
}

/// A tabbed pane with its tabs as models.
pub struct TabbedView {
    pub tabs: Seq<BufferView>,
    pub active: int,
    pub char_size: Vector,
}

impl TabbedView {
    /// Whether the active index names a tab.
    pub open spec fn has_active(self) -> bool {
        0 <= self.active < self.tabs.len()
    }

    /// The tabbed pane with another pane in the place of the active tab.
    pub open spec fn with_active(self, tab: BufferView) -> TabbedView {
        TabbedView { tabs: self.tabs.update(self.active, tab), ..self }
    }

    /// Whether there is an active tab, here and in every tabbed pane
    /// below.
    pub open spec fn wf(self) -> bool
        decreases self,
    {
        &&& self.has_active()
        &&& forall|i: int| 0 <= i < self.tabs.len() ==> (#[trigger] self.tabs[i]).wf()
    }

    /// The leaf that has the focus; none where no tab is active.
    pub open spec fn focused(self) -> Option<BufferView>
        decreases self,
    {
        if self.has_active() {
            Some(self.tabs[self.active].focused())
        } else {
            None
        }
    }

    /// The breadcrumb: the tabs, then the active tab.
    pub open spec fn path(self) -> Seq<char>
        decreases self,
    {
        if self.has_active() {
            "Tabs>"@ + self.tabs[self.active].path()
        } else {
            "Tabs>"@
        }
    }

    /// The value of a variable as the active tab sees it.
    pub open spec fn get_var(self, name: Seq<char>) -> Option<Seq<char>>
        decreases self,
    {
        if self.has_active() {
            self.tabs[self.active].get_var(name)
        } else {
            None
        }
    }

    /// The tabbed pane after a variable was set on the focused leaf.
    pub open spec fn set_var(self, name: Seq<char>, value: Seq<char>) -> TabbedView
        decreases self,
    {
        if self.has_active() {
            self.with_active(self.tabs[self.active].set_var(name, value))
        } else {
            self
        }
    }

    /// The tabbed pane after a move of focus, and whether the move was
    /// handled: the active tab decides.
    pub open spec fn nav(self, dir: NavDir) -> (TabbedView, bool)
        decreases self,
    {
        if self.has_active() {
            let (tab, ok) = self.tabs[self.active].nav(dir);
            (self.with_active(tab), ok)
        } else {
            (self, false)
        }
    }

    /// The tabbed pane after a new node was offered to the focus slot:
    /// the active tab takes it in, or is replaced by it.
    pub open spec fn set_focused(self, child: BufferView) -> TabbedView
        decreases self,
    {
        if self.has_active() {
            let (tab, replace) = self.tabs[self.active].set_focused(child);
            self.with_active(
                if replace {
                    child
                } else {
                    tab
                },
            )
        } else {
            self
        }
    }

    /// The tabbed pane after the focused leaf was divided.
    pub open spec fn split_focused(self, kind: SplitKind) -> TabbedView
        decreases self,
    {
        if self.has_active() {
            self.with_active(self.tabs[self.active].split_focused(kind))
        } else {
            self
        }
    }

    /// The tabbed pane after a close, what the parent has to do, and what
    /// the host is asked.
    ///
    /// An active tab that is empty is taken out, and the tab before it
    /// becomes active; when no tab is left, or none was active, the pane
    /// leaves itself to its parent. Otherwise the active tab closes: when it leaves itself to
    /// the pane, an empty pane takes its slot, and a replacement that it
    /// hands up is installed.
    pub open spec fn close(self) -> (TabbedView, CloseView, Seq<RequestView>)
        decreases self,
    {
        if !self.has_active() {
            (self, CloseView::This, Seq::empty())
        } else if self.tabs[self.active].is_empty() {
            let left = TabbedView {
                tabs: self.tabs.remove(self.active),
                active: if self.active != 0 {
                    self.active - 1
                } else {
                    0
                },
                ..self
            };
            (
                left,
                if left.tabs.len() == 0 {
                    CloseView::This
                } else {
                    CloseView::Done
                },
                Seq::empty(),
            )
        } else {
            let (tab, kind, asked) = self.tabs[self.active].close();
            match kind {
                CloseView::Done => (self.with_active(tab), CloseView::Done, asked),
                CloseView::This => (self.with_active(BufferView::empty()), CloseView::Done, asked),
                CloseView::Replace(r) => (self.with_active(r), CloseView::Done, asked),
            }
        }
    }

    /// The size that the tabs have in a region of the given size: one row
    /// goes to the tab bar.
    pub open spec fn tab_size(size: Vector) -> Vector {
        Vector { x: size.x, y: clip(size.y - 1) as i32 }
    }

    /// The tabbed pane after a layout pass: every tab is laid out.
    pub open spec fn update(self, size: Vector) -> TabbedView
        decreases self,
    {
        TabbedView {
            tabs: Seq::new(
                self.tabs.len(),
                |i: int|
                    if 0 <= i < self.tabs.len() {
                        self.tabs[i].update(Self::tab_size(size))
                    } else {
                        arbitrary()
                    },
            ),
            ..self
        }
    }

    /// The tabbed pane after it was asked for its cursor, and the cursor:
    /// that of the active tab, one row down. The pane remembers the size
    /// of a character.
    pub open spec fn get_cursor(self, size: Vector, char_size: Vector) -> (TabbedView, CursorData)
        decreases self,
    {
        if self.has_active() {
            let (tab, cur) = self.tabs[self.active].get_cursor(size, char_size);
            (
                TabbedView { tabs: self.tabs.update(self.active, tab), char_size, ..self },
                cur.moved(Vector { x: 0, y: char_size.y }),
            )
        } else {
            (TabbedView { char_size, ..self }, CursorData::Hidden)
        }
    }

    /// The region of the active tab when the pane is drawn at `coords`:
    /// what lies below the tab bar.
    pub open spec fn tab_region(self, coords: Rect) -> Rect {
        Rect {
            y: clip(coords.y + self.char_size.y) as i32,
            h: clip(coords.h - self.char_size.y) as i32,
            ..coords
        }
    }

    /// The tabbed pane after an event, which goes to the active tab, and
    /// what the host is asked.
    pub open spec fn event_process(self, ev: EventView, coords: Rect) -> (TabbedView, Seq<RequestView>)
        decreases self, 0nat,
    {
        if self.has_active() {
            let (tab, asked) = self.tabs[self.active].event_process(ev, self.tab_region(coords));
            (self.with_active(tab), asked)
        } else {
            (self, Seq::empty())
        }
    }

    /// What the pane draws in a region: its active tab.
    pub open spec fn drawn(self, char_size: Vector, log: Seq<LogLineView>, coords: Rect) -> Seq<
        DrawOpView,
    >
        decreases self,
    {
        if self.has_active() {
            self.tabs[self.active].drawn(char_size, log, self.tab_region(coords))
        } else {
            Seq::empty()
        }
    }

    /// The index of the first tab from `from` on that holds a file whose
    /// content has yet to arrive; the number of tabs where there is none.
    pub open spec fn waiting_tab(self, from: int) -> int
        decreases self, self.tabs.len() - from,
    {
        if from < 0 || from >= self.tabs.len() {
            self.tabs.len() as int
        } else if self.tabs[from].pending() is Some {
            from
        } else {
            self.waiting_tab(from + 1)
        }
    }

    /// The first file below whose content has yet to arrive.
    pub open spec fn pending(self) -> Option<(Seq<char>, Open)>
        decreases self, self.tabs.len() + 1,
    {
        let i = self.waiting_tab(0);
        if 0 <= i < self.tabs.len() {
            self.tabs[i].pending()
        } else {
            None
        }
    }

    /// The tabbed pane after content arrived for the first file that
    /// waited.
    pub open spec fn load(self, content: ContentView) -> TabbedView
        decreases self, self.tabs.len() + 1,
    {
        let i = self.waiting_tab(0);
        if 0 <= i < self.tabs.len() {
            TabbedView { tabs: self.tabs.update(i, self.tabs[i].load(content)), ..self }
        } else {
            self
        }
    }
}

impl TabbedBuffer {
    /// The model of the tabbed pane.
    pub open spec fn view(&self) -> TabbedView
        decreases self,
    {
        TabbedView {
            tabs: Seq::new(
                self.tabs.len() as nat,
                |i: int|
                    if 0 <= i < self.tabs.len() {
                        self.tabs[i].view()
                    } else {
                        arbitrary()
                    },
            ),
            active: self.active as int,
            char_size: self.char_size,
        }
    }

    /// Whether there is an active tab, here and in every tabbed pane
    /// below.
    pub fn is_wf(&self) -> (r: bool)
        ensures
            r == self.view().wf(),
        decreases self,
    {
        if self.active >= self.tabs.len() {
            return false;
        }
        let mut i: usize = 0;
        while i < self.tabs.len()
            invariant
                i <= self.tabs.len(),
                self.active < self.tabs.len(),
                forall|k: int| 0 <= k < i ==> (#[trigger] self.view().tabs[k]).wf(),
            decreases self.tabs.len() - i,
        {
            if !self.tabs[i].is_wf() {
                assert(!self.view().tabs[i as int].wf());
                return false;
            }
            i = i + 1;
        }
        true
    }

    /// The value of a variable as the active tab sees it.
    pub fn get_var(&self, v: &String) -> (r: Option<String>)
        ensures
            match r {
                Some(value) => self.view().get_var(v@) == Some(value@),
                None => self.view().get_var(v@) is None,
            },
        decreases self,
    {
        if self.active < self.tabs.len() {
            self.tabs[self.active].get_var(v)
        } else {
            None
        }
    }

    /// Sets a variable on the focused leaf.
    pub fn set_var(&mut self, v: String, value: String)
        ensures
            final(self).view() == old(self).view().set_var(v@, value@),
        decreases *old(self),
    {
        if self.active < self.tabs.len() {
            let i = self.active;
            self.tabs[i].set_var(v, value);
            assert(self.view().tabs =~= old(self).view().set_var(v@, value@).tabs);
        }
    }

    /// One layout pass: every tab is laid out below the tab bar.
    pub fn update(&mut self, size: Vector)
        ensures
            final(self).view() == old(self).view().update(size),
        decreases *old(self),
    {
        let sub = Vector { x: size.x, y: sat_sub(size.y, 1) };
        let n = self.tabs.len();
        let mut i: usize = 0;
        while i < n
            invariant
                i <= n,
                n == self.tabs.len(),
                n == old(self).tabs.len(),
                self.active == old(self).active,
                self.char_size == old(self).char_size,
                sub == TabbedView::tab_size(size),
                forall|k: int|
                    0 <= k < i ==> (#[trigger] self.tabs[k]).view() == old(self).tabs[k].view().update(
                        sub,
                    ),
                forall|k: int| i <= k < n ==> (#[trigger] self.tabs[k]) == old(self).tabs[k],
            decreases n - i,
        {
            self.tabs[i].update(sub);
            i = i + 1;
        }
        assert(self.view().tabs =~= old(self).view().update(size).tabs);
    }

    /// The region of the active tab when the pane is drawn at `coords`.
    fn tab_region(&self, coords: Rect) -> (r: Rect)
        ensures
            r == self.view().tab_region(coords),
    {
        Rect {
            x: coords.x,
            y: sat_add(coords.y, self.char_size.y),
            w: coords.w,
            h: sat_sub(coords.h, self.char_size.y),
        }
    }

    /// Draws the active tab below the tab bar.
    pub fn draw_conts(&self, handle: &mut Handle, coords: Rect)
        ensures
            old(handle).extended_by(
                final(handle),
                self.view().drawn(old(handle).char_size, old(handle).log_view(), coords),
            ),
        decreases self, 0nat,
    {
        if self.active < self.tabs.len() {
            self.tabs[self.active].draw(handle, self.tab_region(coords));
        }
    }

    /// Where the cursor is drawn: the cursor of the active tab, one row
    /// down.
    pub fn get_cursor(&mut self, size: Vector, char_size: Vector) -> (cur: CursorData)
        ensures
            (final(self).view(), cur) == old(self).view().get_cursor(size, char_size),
        decreases *old(self),
    {
        self.char_size = char_size;
        if self.active < self.tabs.len() {
            let i = self.active;
            let mut cur = self.tabs[i].get_cursor(size, char_size);
            cur.offset(Vector { x: 0, y: char_size.y });
            assert(self.view().tabs =~= old(self).view().get_cursor(size, char_size).0.tabs);
            cur
        } else {
            CursorData::Hidden
        }
    }

    /// Hands an event to the active tab.
    pub fn event_process(&mut self, ev: Event, lsp: &mut LSPData, coords: Rect)
        ensures
            final(self).view() == old(self).view().event_process(ev@, coords).0,
            final(lsp)@ == old(lsp)@ + old(self).view().event_process(ev@, coords).1,
        decreases *old(self), 0nat,
    {
        if self.active < self.tabs.len() {
            let i = self.active;
            let region = self.tab_region(coords);
            self.tabs[i].event_process(ev, lsp, region);
            assert(self.view().tabs =~= old(self).view().event_process(ev@, coords).0.tabs);
        }
    }

    /// Moves the focus in a direction: the active tab decides.
    pub fn nav(&mut self, dir: NavDir) -> (handled: bool)
        ensures
            (final(self).view(), handled) == old(self).view().nav(dir),
        decreases *old(self),
    {
        if self.active < self.tabs.len() {
            let i = self.active;
            let ok = self.tabs[i].nav(dir);
            assert(self.view().tabs =~= old(self).view().nav(dir).0.tabs);
            ok
        } else {
            false
        }
    }

    /// The breadcrumb: the tabs, then the active tab.
    pub fn get_path(&self) -> (s: String)
        ensures
            s@ == self.view().path(),
        decreases self,
    {
        let mut s = "Tabs>".to_string();
        if self.active < self.tabs.len() {
            let below = self.tabs[self.active].get_path();
            s.append(below.as_str());
        }
        s
    }

    /// Offers a new node to the focus slot: the active tab takes it in,
    /// or is replaced by it.
    pub fn set_focused(&mut self, child: Buffer)
        ensures
            final(self).view() == old(self).view().set_focused(child@),
        decreases *old(self),
    {
        if self.active < self.tabs.len() {
            let i = self.active;
            match self.tabs[i].set_focused(child) {
                Some(c) => {
                    self.tabs[i] = Box::new(c);
                },
                None => {},
            }
            assert(self.view().tabs =~= old(self).view().set_focused(child@).tabs);
        }
    }

    /// Divides the focused leaf.
    pub fn split_focused(&mut self, kind: SplitKind)
        ensures
            final(self).view() == old(self).view().split_focused(kind),
        decreases *old(self),
    {
        if self.active < self.tabs.len() {
            let i = self.active;
            self.tabs[i].split_focused(kind);
            assert(self.view().tabs =~= old(self).view().split_focused(kind).tabs);
        }
    }

    /// Closes what has the focus: an empty active tab is taken out,
    /// any other closes in its place.
    pub fn close(&mut self, lsp: &mut LSPData) -> (kind: CloseKind)
        ensures
            final(self).view() == old(self).view().close().0,
            kind@ == old(self).view().close().1,
            final(lsp)@ == old(lsp)@ + old(self).view().close().2,
        decreases *old(self),
    {
        if self.active >= self.tabs.len() {
            return CloseKind::This;
        }
        let i = self.active;
        if self.tabs[i].is_empty() {
            self.tabs.remove(i);
            if self.active != 0 {
                self.active = self.active - 1;
            }
            assert(self.view().tabs =~= old(self).view().tabs.remove(i as int));
            if self.tabs.len() == 0 {
                return CloseKind::This;
            }
            return CloseKind::Done;
        }
        match self.tabs[i].close(lsp) {
            CloseKind::Done => {},
            CloseKind::This => {
                self.tabs[i] = Box::new(Buffer::empty());
            },
            CloseKind::Replace(r) => {
                self.tabs[i] = r;
            },
        }
        assert(self.view().tabs =~= old(self).view().close().0.tabs);
        CloseKind::Done
    }

    /// The index of the first tab that holds a file whose content has yet
    /// to arrive; the number of tabs where there is none.
    fn waiting_tab(&self) -> (i: usize)
        ensures
            i == self.view().waiting_tab(0),
            i <= self.tabs.len(),
        decreases self, self.tabs.len(),
    {
        let mut i: usize = 0;
        while i < self.tabs.len()
            invariant
                i <= self.tabs.len(),
                self.view().waiting_tab(0) == self.view().waiting_tab(i as int),
            decreases self.tabs.len() - i,
        {
            if self.tabs[i].wants_load().is_some() {
                return i;
            }
            i = i + 1;
        }
        i
    }

    /// The first file below whose content has yet to arrive.
    pub fn wants_load(&self) -> (r: Option<(String, Open)>)
        ensures
            match r {
                Some((name, kind)) => self.view().pending() == Some((name@, kind)),
                None => self.view().pending() is None,
            },
        decreases self, self.tabs.len() + 1,
    {
        let i = self.waiting_tab();
        if i < self.tabs.len() {
            self.tabs[i].wants_load()
        } else {
            None
        }
    }

    /// Takes content for the first file below that waited for it.
    pub fn load(&mut self, content: Content)
        ensures
            final(self).view() == old(self).view().load(content@),
        decreases *old(self), old(self).tabs.len() + 1,
    {
        let i = self.waiting_tab();
        if i < self.tabs.len() {
            self.tabs[i].load(content);
            assert(self.view().tabs =~= old(self).view().load(content@).tabs);
        }
    }
}

} // verus!
