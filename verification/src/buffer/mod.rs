//! The pane tree: leaves that show content, containers that compose them,
//! and the contract that every node meets.
//!
//! Every pane has a model, its view, and every operation of the contract
//! is a function on models; the executable operations are proved to
//! compute it.

use crate::buffer::empty::{empty_drawn, EmptyBuffer};
use crate::buffer::file::{filetype, filetype_of, FileBuffer, FileView};
use crate::buffer::hex::{HexBuffer, HexView};
use crate::buffer::hl::{HighlightBuffer, HighlightView};
use crate::buffer::lemmas::{
    lemma_close_wf, lemma_focused_is_leaf, lemma_nav_wf, lemma_replace_focused, lemma_split_wf,
};
use crate::buffer::logview::{log_drawn, LogViewBuffer};
use crate::buffer::split::{SplitBuffer, SplitDir, SplitView};
use crate::buffer::tabbed::{TabbedBuffer, TabbedView};
use crate::drawer::{CursorData, DrawOpView, Handle, Line, LineView};
use crate::event::{Event, EventView};
use crate::highlight::{Color, ColorView};
use crate::logging::LogLineView;
use crate::lsp::{LSPData, RequestView};
use crate::math::{Measurement, Rect, Vector};
use crate::script::{Open, SplitKind};
use crate::strmap::StrMap;
use vstd::prelude::*;

pub mod empty;
pub mod file;
pub mod hex;
pub mod hl;
pub mod lemmas;
pub mod logview;
pub mod split;
pub mod tabbed;

verus! {

/// A direction of focus movement between panes.
#[derive(PartialEq, Eq, Debug, Clone, Copy, Structural)]
pub enum NavDir {
    Up,
    Down,
    Left,
    Right,
}

/// What a pane is, besides its variables.
#[derive(Debug, PartialEq)]
pub enum Base {
    Empty(EmptyBuffer),
    File(FileBuffer),
    Hex(HexBuffer),
    Highlight(HighlightBuffer),
    LogView(LogViewBuffer),
    Split(SplitBuffer),
    Tabbed(TabbedBuffer),
}

/// One node of the pane tree: a leaf or a container, with the variables
/// that are local to it.
#[derive(Debug, PartialEq)]
pub struct Buffer {
    pub vars: StrMap<String>,
    pub base: Base,
}

/// What closing a node asks of its parent: nothing, to take the node out,
/// or to put another in its place.
#[derive(Debug, PartialEq)]
pub enum CloseKind {
    Done,
    This,
    Replace(Box<Buffer>),
}

/// The content of a file as the host has read it.
#[derive(Debug, PartialEq)]
pub enum Content {
    Failed,
    Text(String),
    Bytes(Vec<u8>),
}

/// What a pane is, as a model.
pub enum BaseView {
    Empty,
    File(FileView),
    Hex(HexView),
    Highlight(HighlightView),
    LogView,
    Split(SplitView),
    Tabbed(TabbedView),
}

/// The model of a node: its variables as a map, and what it is.
pub struct BufferView {
    pub vars: Map<Seq<char>, Seq<char>>,
    pub base: BaseView,
}

/// The model of a close result.
pub enum CloseView {
    Done,
    This,
    Replace(BufferView),
}

/// The model of file content.
pub enum ContentView {
    Failed,
    Text(Seq<char>),
    Bytes(Seq<u8>),
}

impl View for Content {
    type V = ContentView;

    open spec fn view(&self) -> ContentView {
        match self {
            Content::Failed => ContentView::Failed,
            Content::Text(s) => ContentView::Text(s@),
            Content::Bytes(b) => ContentView::Bytes(b@),
        }
    }
}

impl ContentView {
    /// The content as text; none where the read failed or gave bytes.
    pub open spec fn text(self) -> Option<Seq<char>> {
        match self {
            ContentView::Text(s) => Some(s),
            _ => None,
        }
    }

    /// The content as bytes; none where the read failed or gave text.
    pub open spec fn bytes(self) -> Option<Seq<u8>> {
        match self {
            ContentView::Bytes(b) => Some(b),
            _ => None,
        }
    }
}

/// The variables of a node as a map from name to value.
pub open spec fn vars_view(vars: StrMap<String>) -> Map<Seq<char>, Seq<char>> {
    vars@.map_values(|s: String| s@)
}

impl BufferView {
    /// An empty pane without variables.
    pub open spec fn empty() -> BufferView {
        BufferView { vars: Map::empty(), base: BaseView::Empty }
    }

    /// A node made of what it is: a pane for a file knows the file's type
    /// as the variable `filetype`; every other node starts without
    /// variables.
    pub open spec fn created(base: BaseView) -> BufferView {
        BufferView {
            vars: match base {
                BaseView::File(f) => Map::empty().insert("filetype"@, filetype_of(f.filename)),
                BaseView::Hex(h) => Map::empty().insert("filetype"@, filetype_of(h.filename)),
                _ => Map::empty(),
            },
            base,
        }
    }

    /// Whether the node is the empty pane.
    pub open spec fn is_empty(self) -> bool {
        self.base is Empty
    }

    /// Whether the node is a leaf.
    pub open spec fn is_leaf(self) -> bool {
        !(self.base is Split) && !(self.base is Tabbed)
    }

    /// Whether every tabbed pane in the tree has an active tab, so that
    /// following the active children from the root ends in a leaf.
    pub open spec fn wf(self) -> bool
        decreases self,
    {
        match self.base {
            BaseView::Split(s) => s.wf(),
            BaseView::Tabbed(t) => t.wf(),
            _ => true,
        }
    }

    /// The leaf that has the focus: the one that the active children lead
    /// to. A tabbed pane without an active tab stands for itself.
    pub open spec fn focused(self) -> BufferView
        decreases self,
    {
        match self.base {
            BaseView::Split(s) => s.focused(),
            BaseView::Tabbed(t) => match t.focused() {
                Some(leaf) => leaf,
                None => self,
            },
            _ => self,
        }
    }

    /// The breadcrumb that names what has the focus.
    pub open spec fn path(self) -> Seq<char>
        decreases self,
    {
        match self.base {
            BaseView::Empty => "Empty"@,
            BaseView::File(f) => f.path(),
            BaseView::Hex(h) => h.path(),
            BaseView::Highlight(_) => "Highlight"@,
            BaseView::LogView => "LogView"@,
            BaseView::Split(s) => s.path(),
            BaseView::Tabbed(t) => t.path(),
        }
    }

    /// The value of a variable: what the focused child says, and the
    /// node's own value where there is no such child or it knows none.
    pub open spec fn get_var(self, name: Seq<char>) -> Option<Seq<char>>
        decreases self,
    {
        let below = match self.base {
            BaseView::Split(s) => s.get_var(name),
            BaseView::Tabbed(t) => t.get_var(name),
            _ => None,
        };
        match below {
            Some(value) => Some(value),
            None => if self.vars.contains_key(name) {
                Some(self.vars[name])
            } else {
                None
            },
        }
    }

    /// The tree after a variable was set: the value lands on the focused
    /// leaf, or on a tabbed pane that has no active tab.
    pub open spec fn set_var(self, name: Seq<char>, value: Seq<char>) -> BufferView
        decreases self,
    {
        match self.base {
            BaseView::Split(s) => BufferView { base: BaseView::Split(s.set_var(name, value)), ..self },
            BaseView::Tabbed(t) => if t.has_active() {
                BufferView { base: BaseView::Tabbed(t.set_var(name, value)), ..self }
            } else {
                BufferView { vars: self.vars.insert(name, value), ..self }
            },
            _ => BufferView { vars: self.vars.insert(name, value), ..self },
        }
    }

    /// The tree after a move of focus, and whether the move was handled.
    /// A leaf handles none.
    pub open spec fn nav(self, dir: NavDir) -> (BufferView, bool)
        decreases self,
    {
        match self.base {
            BaseView::Split(s) => {
                let (s, ok) = s.nav(dir);
                (BufferView { base: BaseView::Split(s), ..self }, ok)
            },
            BaseView::Tabbed(t) => {
                let (t, ok) = t.nav(dir);
                (BufferView { base: BaseView::Tabbed(t), ..self }, ok)
            },
            _ => (self, false),
        }
    }

    /// The tree after a new node was offered to the focus slot, and
    /// whether the caller has to put the new node in this node's place. A
    /// leaf asks just that; a container takes the node in.
    pub open spec fn set_focused(self, child: BufferView) -> (BufferView, bool)
        decreases self,
    {
        match self.base {
            BaseView::Split(s) => (
                BufferView { base: BaseView::Split(s.set_focused(child)), ..self },
                false,
            ),
            BaseView::Tabbed(t) => (
                BufferView { base: BaseView::Tabbed(t.set_focused(child)), ..self },
                false,
            ),
            _ => (self, true),
        }
    }

    /// The tree with a new node in the focus slot.
    pub open spec fn replace_focused(self, child: BufferView) -> BufferView {
        let (kept, replace) = self.set_focused(child);
        if replace {
            child
        } else {
            kept
        }
    }

    /// A leaf divided: a split with the leaf first and an empty pane
    /// second, which is active, or a tabbed pane with the leaf as its one
    /// tab. The container has no variables of its own.
    pub open spec fn divided(self, kind: SplitKind) -> BufferView {
        let unit = Vector { x: 1, y: 1 };
        BufferView {
            vars: Map::empty(),
            base: match kind {
                SplitKind::Horizontal => BaseView::Split(
                    SplitView {
                        a: Box::new(self),
                        b: Box::new(BufferView::empty()),
                        split_dir: SplitDir::Horizontal,
                        split: Measurement::Percent(50),
                        a_active: false,
                        char_size: unit,
                    },
                ),
                SplitKind::Vertical => BaseView::Split(
                    SplitView {
                        a: Box::new(self),
                        b: Box::new(BufferView::empty()),
                        split_dir: SplitDir::Vertical,
                        split: Measurement::Percent(50),
                        a_active: false,
                        char_size: unit,
                    },
                ),
                SplitKind::Tabbed => BaseView::Tabbed(
                    TabbedView { tabs: seq![self], active: 0, char_size: unit },
                ),
            },
        }
    }

    /// The tree after the focused leaf was divided.
    pub open spec fn split_focused(self, kind: SplitKind) -> BufferView
        decreases self,
    {
        match self.base {
            BaseView::Split(s) => BufferView { base: BaseView::Split(s.split_focused(kind)), ..self },
            BaseView::Tabbed(t) => if t.has_active() {
                BufferView { base: BaseView::Tabbed(t.split_focused(kind)), ..self }
            } else {
                self.divided(kind)
            },
            _ => self.divided(kind),
        }
    }

    /// The tree after a close, what the parent has to do, and what the
    /// host is asked. A leaf stays as it is and leaves itself to its
    /// parent; a file tells the language server that it closed.
    pub open spec fn close(self) -> (BufferView, CloseView, Seq<RequestView>)
        decreases self,
    {
        match self.base {
            BaseView::File(f) => (
                self,
                CloseView::This,
                seq![RequestView::Closed { file: f.filename }],
            ),
            BaseView::Hex(h) => (
                self,
                CloseView::This,
                seq![RequestView::Closed { file: h.filename }],
            ),
            BaseView::Split(s) => {
                let (s, kind, asked) = s.close();
                (BufferView { base: BaseView::Split(s), ..self }, kind, asked)
            },
            BaseView::Tabbed(t) => {
                let (t, kind, asked) = t.close();
                (BufferView { base: BaseView::Tabbed(t), ..self }, kind, asked)
            },
            _ => (self, CloseView::This, Seq::empty()),
        }
    }

    /// The tree after a close at the root: a root that leaves itself to
    /// its parent gives way to an empty pane.
    pub open spec fn close_focused(self) -> BufferView {
        let (kept, kind, asked) = self.close();
        match kind {
            CloseView::Done => kept,
            CloseView::This => BufferView::empty(),
            CloseView::Replace(r) => r,
        }
    }

    /// The tree after a layout pass for the given size.
    pub open spec fn update(self, size: Vector) -> BufferView
        decreases self,
    {
        BufferView {
            base: match self.base {
                BaseView::File(f) => BaseView::File(f.updated(size)),
                BaseView::Hex(h) => BaseView::Hex(h.updated(size)),
                BaseView::Split(s) => BaseView::Split(s.update(size)),
                BaseView::Tabbed(t) => BaseView::Tabbed(t.update(size)),
                other => other,
            },
            ..self
        }
    }

    /// The tree after it was asked for its cursor, and the cursor.
    pub open spec fn get_cursor(self, size: Vector, char_size: Vector) -> (BufferView, CursorData)
        decreases self,
    {
        match self.base {
            BaseView::File(f) => (
                BufferView { base: BaseView::File(f.measured(size, char_size)), ..self },
                f.cursor(char_size),
            ),
            BaseView::Hex(h) => (
                BufferView { base: BaseView::Hex(h.measured(size, char_size)), ..self },
                h.cursor(char_size),
            ),
            BaseView::Split(s) => {
                let (s, cur) = s.get_cursor(size, char_size);
                (BufferView { base: BaseView::Split(s), ..self }, cur)
            },
            BaseView::Tabbed(t) => {
                let (t, cur) = t.get_cursor(size, char_size);
                (BufferView { base: BaseView::Tabbed(t), ..self }, cur)
            },
            _ => (self, CursorData::Hidden),
        }
    }

    /// The tree after an event, and what the host is asked.
    pub open spec fn event_process(self, ev: EventView, coords: Rect) -> (BufferView, Seq<RequestView>)
        decreases self, 0nat,
    {
        match self.base {
            BaseView::File(f) => (
                BufferView { base: BaseView::File(f.after_event(ev, coords)), ..self },
                f.requests(ev),
            ),
            BaseView::Hex(h) => (
                BufferView { base: BaseView::Hex(h.after_event(ev, coords)), ..self },
                h.requests(ev),
            ),
            BaseView::Split(s) => {
                let (s, asked) = s.event_process(ev, coords);
                (BufferView { base: BaseView::Split(s), ..self }, asked)
            },
            BaseView::Tabbed(t) => {
                let (t, asked) = t.event_process(ev, coords);
                (BufferView { base: BaseView::Tabbed(t), ..self }, asked)
            },
            _ => (self, Seq::empty()),
        }
    }

    /// What the tree draws in a region, for characters of the given size
    /// and with the given log.
    pub open spec fn drawn(self, char_size: Vector, log: Seq<LogLineView>, coords: Rect) -> Seq<
        DrawOpView,
    >
        decreases self,
    {
        match self.base {
            BaseView::Empty => empty_drawn(coords),
            BaseView::File(f) => f.drawn(char_size, coords),
            BaseView::Hex(h) => h.drawn(char_size, coords),
            BaseView::Highlight(h) => h.drawn(coords),
            BaseView::LogView => log_drawn(log, char_size, coords),
            BaseView::Split(s) => s.drawn(char_size, log, coords),
            BaseView::Tabbed(t) => t.drawn(char_size, log, coords),
        }
    }

    /// The first file in the tree whose content has yet to arrive, and how
    /// it is to be read. Children come in the order of layout.
    pub open spec fn pending(self) -> Option<(Seq<char>, Open)>
        decreases self, 0nat,
    {
        match self.base {
            BaseView::File(f) => if f.cached {
                None
            } else {
                Some((f.filename, Open::Text))
            },
            BaseView::Hex(h) => if h.cached {
                None
            } else {
                Some((h.filename, Open::Hex))
            },
            BaseView::Split(s) => s.pending(),
            BaseView::Tabbed(t) => t.pending(),
            _ => None,
        }
    }

    /// The tree after content arrived for the first file that waited.
    /// Content of the wrong kind counts as a failed read.
    pub open spec fn load(self, content: ContentView) -> BufferView
        decreases self, 0nat,
    {
        BufferView {
            base: match self.base {
                BaseView::File(f) => BaseView::File(f.loaded(content.text())),
                BaseView::Hex(h) => BaseView::Hex(h.loaded(content.bytes())),
                BaseView::Split(s) => BaseView::Split(s.load(content)),
                BaseView::Tabbed(t) => BaseView::Tabbed(t.load(content)),
                other => other,
            },
            ..self
        }
    }
}

/// `n` links to the table entry called `name`.
pub open spec fn links(name: Seq<char>, n: nat) -> Seq<ColorView> {
    Seq::new(n, |i: int| ColorView::Link(name))
}

/// Appends `n` links to the table entry called `name`.
pub fn push_links(colors: &mut Vec<Color>, name: &str, n: usize)
    ensures
        final(colors).deep_view() == old(colors).deep_view() + links(name@, n as nat),
{
    let mut i: usize = 0;
    while i < n
        invariant
            i <= n,
            colors.deep_view() == old(colors).deep_view() + links(name@, i as nat),
        decreases n - i,
    {
        let c = Color::link(name);
        colors.push(c);
        assert(old(colors).deep_view() + links(name@, (i + 1) as nat) =~= (old(colors).deep_view()
            + links(name@, i as nat)).push(ColorView::Link(name@)));
        i = i + 1;
    }
}

/// A line of text in the foreground color.
pub open spec fn plain_line(text: Seq<char>) -> LineView {
    LineView::Text { chars: text, colors: links("fg"@, text.len()) }
}

/// A line of text with every character in the foreground color.
pub fn create_line(text: String) -> (l: Line)
    ensures
        l@ == plain_line(text@),
{
    let mut colors: Vec<Color> = Vec::new();
    let n = text.as_str().unicode_len();
    push_links(&mut colors, "fg", n);
    Line::Text { chars: text, colors }
}

/// Setting a variable in the store is `insert` on its model.
pub proof fn lemma_vars_insert(vars: Map<Seq<char>, String>, name: Seq<char>, value: String)
    ensures
        vars.insert(name, value).map_values(|s: String| s@) == vars.map_values(|s: String| s@).insert(
            name,
            value@,
        ),
{
}

impl Base {
    /// The model of what a pane is.
    pub open spec fn view(&self) -> BaseView
        decreases self,
    {
        match self {
            Base::Empty(_) => BaseView::Empty,
            Base::File(f) => BaseView::File(f@),
            Base::Hex(h) => BaseView::Hex(h@),
            Base::Highlight(h) => BaseView::Highlight(h@),
            Base::LogView(_) => BaseView::LogView,
            Base::Split(s) => BaseView::Split(s.view()),
            Base::Tabbed(t) => BaseView::Tabbed(t.view()),
        }
    }
}

impl CloseKind {
    /// The model of a close result.
    pub open spec fn view(&self) -> CloseView {
        match self {
            CloseKind::Done => CloseView::Done,
            CloseKind::This => CloseView::This,
            CloseKind::Replace(r) => CloseView::Replace(r.view()),
        }
    }
}

impl Buffer {
    /// The model of the node.
    pub open spec fn view(&self) -> BufferView
        decreases self,
    {
        BufferView { vars: vars_view(self.vars), base: self.base.view() }
    }

    /// An empty pane without variables.
    pub fn empty() -> (b: Buffer)
        ensures
            b@ == BufferView::empty(),
    {
        let b = Buffer { vars: StrMap::new(), base: Base::Empty(EmptyBuffer {  }) };
        assert(b@.vars =~= Map::empty());
        b
    }

    /// A node made of what it is.
    pub fn new(base: Base) -> (b: Buffer)
        ensures
            b@ == BufferView::created(base@),
    {
        let mut vars: StrMap<String> = StrMap::new();
        assert(vars_view(vars) =~= Map::empty());
        match &base {
            Base::File(f) => {
                let kind = filetype(f.filename.as_str());
                proof {
                    lemma_vars_insert(vars@, "filetype"@, kind);
                }
                vars.insert("filetype".to_string(), kind);
            },
            Base::Hex(h) => {
                let kind = filetype(h.filename.as_str());
                proof {
                    lemma_vars_insert(vars@, "filetype"@, kind);
                }
                vars.insert("filetype".to_string(), kind);
            },
            _ => {},
        }
        Buffer { vars, base }
    }

    /// Whether the node is the empty pane.
    pub fn is_empty(&self) -> (r: bool)
        ensures
            r == self@.is_empty(),
    {
        match &self.base {
            Base::Empty(_) => true,
            _ => false,
        }
    }

    /// Whether every tabbed pane in the tree has an active tab.
    pub fn is_wf(&self) -> (r: bool)
        ensures
            r == self@.wf(),
        decreases self,
    {
        match &self.base {
            Base::Split(s) => s.is_wf(),
            Base::Tabbed(t) => t.is_wf(),
            _ => true,
        }
    }

    /// The value of a variable as the focused leaf sees it, with the
    /// values of the nodes above it to fall back on.
    pub fn get_var(&self, v: &String) -> (r: Option<String>)
        ensures
            match r {
                Some(value) => self@.get_var(v@) == Some(value@),
                None => self@.get_var(v@) is None,
            },
        decreases self,
    {
        let below = match &self.base {
            Base::Split(s) => s.get_var(v),
            Base::Tabbed(t) => t.get_var(v),
            _ => None,
        };
        match below {
            Some(value) => Some(value),
            None => match self.vars.get(v) {
                Some(value) => Some(value.clone()),
                None => None,
            },
        }
    }

    /// Sets a variable on the focused leaf.
    pub fn set_var(&mut self, v: String, value: String)
        ensures
            final(self)@ == old(self)@.set_var(v@, value@),
        decreases *old(self),
    {
        let on_self = match &self.base {
            Base::Split(_) => false,
            Base::Tabbed(t) => t.active >= t.tabs.len(),
            _ => true,
        };
        if on_self {
            proof {
                lemma_vars_insert(self.vars@, v@, value);
            }
            self.vars.insert(v, value);
        } else {
            match &mut self.base {
                Base::Split(s) => s.set_var(v, value),
                Base::Tabbed(t) => t.set_var(v, value),
                _ => {},
            }
        }
    }

    /// One layout pass for a tree of the given size.
    pub fn update(&mut self, size: Vector)
        ensures
            final(self)@ == old(self)@.update(size),
        decreases *old(self),
    {
        match &mut self.base {
            Base::File(f) => f.update(size),
            Base::Hex(h) => h.update(size),
            Base::Split(s) => s.update(size),
            Base::Tabbed(t) => t.update(size),
            _ => {},
        }
    }

    /// Draws the tree into a region of the frame.
    pub fn draw_conts(&self, handle: &mut Handle, coords: Rect)
        ensures
            old(handle).extended_by(
                final(handle),
                self@.drawn(old(handle).char_size, old(handle).log_view(), coords),
            ),
        decreases self, 0nat,
    {
        match &self.base {
            Base::Empty(e) => e.draw_conts(handle, coords),
            Base::File(f) => f.draw_conts(handle, coords),
            Base::Hex(h) => h.draw_conts(handle, coords),
            Base::Highlight(h) => h.draw_conts(handle, coords),
            Base::LogView(l) => l.draw_conts(handle, coords),
            Base::Split(s) => s.draw_conts(handle, coords),
            Base::Tabbed(t) => t.draw_conts(handle, coords),
        }
    }

    /// Draws the tree into a region of the frame.
    pub fn draw(&self, handle: &mut Handle, coords: Rect)
        ensures
            old(handle).extended_by(
                final(handle),
                self@.drawn(old(handle).char_size, old(handle).log_view(), coords),
            ),
        decreases self, 1nat,
    {
        self.draw_conts(handle, coords)
    }

    /// Where the cursor is drawn in a tree of the given size. The panes
    /// on the way to the focused leaf remember what they were told.
    pub fn get_cursor(&mut self, size: Vector, char_size: Vector) -> (cur: CursorData)
        ensures
            (final(self)@, cur) == old(self)@.get_cursor(size, char_size),
        decreases *old(self),
    {
        match &mut self.base {
            Base::File(f) => f.get_cursor(size, char_size),
            Base::Hex(h) => h.get_cursor(size, char_size),
            Base::Split(s) => s.get_cursor(size, char_size),
            Base::Tabbed(t) => t.get_cursor(size, char_size),
            _ => CursorData::Hidden,
        }
    }

    /// Routes one event through the tree. What the panes ask of the host
    /// is recorded in `lsp`.
    pub fn event_process(&mut self, ev: Event, lsp: &mut LSPData, coords: Rect)
        ensures
            final(self)@ == old(self)@.event_process(ev@, coords).0,
            final(lsp)@ == old(lsp)@ + old(self)@.event_process(ev@, coords).1,
        decreases *old(self), 0nat,
    {
        match &mut self.base {
            Base::File(f) => f.event_process(ev, lsp, coords),
            Base::Hex(h) => h.event_process(ev, lsp, coords),
            Base::Split(s) => s.event_process(ev, lsp, coords),
            Base::Tabbed(t) => t.event_process(ev, lsp, coords),
            _ => {},
        }
    }

    /// Moves the focus in a direction; tells whether the move was handled
    /// inside this node.
    pub fn nav(&mut self, dir: NavDir) -> (handled: bool)
        ensures
            (final(self)@, handled) == old(self)@.nav(dir),
            old(self)@.wf() ==> final(self)@.wf(),
        decreases *old(self),
    {
        proof {
            if self@.wf() {
                lemma_nav_wf(self@, dir);
            }
        }
        match &mut self.base {
            Base::Split(s) => s.nav(dir),
            Base::Tabbed(t) => t.nav(dir),
            _ => false,
        }
    }

    /// The breadcrumb that names what has the focus.
    pub fn get_path(&self) -> (s: String)
        ensures
            s@ == self@.path(),
        decreases self,
    {
        match &self.base {
            Base::Empty(e) => e.get_path(),
            Base::File(f) => f.get_path(),
            Base::Hex(h) => h.get_path(),
            Base::Highlight(h) => h.get_path(),
            Base::LogView(l) => l.get_path(),
            Base::Split(s) => s.get_path(),
            Base::Tabbed(t) => t.get_path(),
        }
    }

    /// Offers a new node to the focus slot. A leaf hands it back: the
    /// caller has to put it in the leaf's place. A container takes it in
    /// and hands nothing back.
    pub fn set_focused(&mut self, child: Buffer) -> (back: Option<Buffer>)
        ensures
            match back {
                Some(c) => c == child && old(self)@.set_focused(child@).1 && *final(self) == *old(
                    self,
                ),
                None => !old(self)@.set_focused(child@).1 && final(self)@ == old(self)@.set_focused(
                    child@,
                ).0,
            },
        decreases *old(self),
    {
        match &mut self.base {
            Base::Split(s) => {
                s.set_focused(child);
                None
            },
            Base::Tabbed(t) => {
                t.set_focused(child);
                None
            },
            _ => Some(child),
        }
    }

    /// Puts a new node in the focus slot, at the root if the root is a
    /// leaf.
    pub fn replace_focused(&mut self, child: Buffer)
        ensures
            final(self)@ == old(self)@.replace_focused(child@),
            old(self)@.wf() && child@.wf() ==> final(self)@.wf() && final(self)@.focused()
                == child@.focused(),
    {
        proof {
            if self@.wf() && child@.wf() {
                lemma_replace_focused(self@, child@);
            }
        }
        match self.set_focused(child) {
            Some(c) => {
                *self = c;
            },
            None => {},
        }
    }

    /// Puts a container in the place of this node and this node into the
    /// container.
    fn divide(&mut self, kind: SplitKind)
        ensures
            final(self)@ == old(self)@.divided(kind),
    {
        let mut leaf = Buffer::empty();
        std::mem::swap(self, &mut leaf);
        let unit = Vector { x: 1, y: 1 };
        let base = match kind {
            SplitKind::Horizontal => Base::Split(
                SplitBuffer {
                    a: Box::new(leaf),
                    b: Box::new(Buffer::empty()),
                    split_dir: SplitDir::Horizontal,
                    split: Measurement::Percent(50),
                    a_active: false,
                    char_size: unit,
                },
            ),
            SplitKind::Vertical => Base::Split(
                SplitBuffer {
                    a: Box::new(leaf),
                    b: Box::new(Buffer::empty()),
                    split_dir: SplitDir::Vertical,
                    split: Measurement::Percent(50),
                    a_active: false,
                    char_size: unit,
                },
            ),
            SplitKind::Tabbed => {
                let mut tabs: Vec<Box<Buffer>> = Vec::new();
                let ghost first = leaf@;
                tabs.push(Box::new(leaf));
                let t = TabbedBuffer { tabs, active: 0, char_size: unit };
                assert(t.view().tabs =~= seq![first]);
                Base::Tabbed(t)
            },
        };
        let vars: StrMap<String> = StrMap::new();
        assert(vars_view(vars) =~= Map::empty());
        *self = Buffer { vars, base };
    }

    /// Divides the focused leaf: it becomes the first child of a new
    /// split whose second child is empty and active, or the one tab of a
    /// new tabbed pane.
    pub fn split_focused(&mut self, kind: SplitKind)
        ensures
            final(self)@ == old(self)@.split_focused(kind),
            old(self)@.wf() ==> final(self)@.wf(),
        decreases *old(self),
    {
        proof {
            if self@.wf() {
                lemma_split_wf(self@, kind);
            }
        }
        let here = match &self.base {
            Base::Split(_) => false,
            Base::Tabbed(t) => t.active >= t.tabs.len(),
            _ => true,
        };
        if here {
            self.divide(kind);
        } else {
            match &mut self.base {
                Base::Split(s) => s.split_focused(kind),
                Base::Tabbed(t) => t.split_focused(kind),
                _ => {},
            }
        }
    }

    /// Closes what has the focus and tells the parent what to do with
    /// this node.
    pub fn close(&mut self, lsp: &mut LSPData) -> (kind: CloseKind)
        ensures
            final(self)@ == old(self)@.close().0,
            kind@ == old(self)@.close().1,
            final(lsp)@ == old(lsp)@ + old(self)@.close().2,
        decreases *old(self),
    {
        match &mut self.base {
            Base::File(f) => {
                let kind = f.close(lsp);
                kind
            },
            Base::Hex(h) => {
                let kind = h.close(lsp);
                kind
            },
            Base::Split(s) => s.close(lsp),
            Base::Tabbed(t) => t.close(lsp),
            _ => CloseKind::This,
        }
    }

    /// Closes what has the focus, with this node as the root: a root that
    /// has to go gives way to an empty pane.
    pub fn close_focused(&mut self, lsp: &mut LSPData)
        ensures
            final(self)@ == old(self)@.close_focused(),
            final(lsp)@ == old(lsp)@ + old(self)@.close().2,
            old(self)@.wf() ==> final(self)@.wf() && final(self)@.focused().is_leaf(),
    {
        proof {
            if self@.wf() {
                lemma_close_wf(self@);
                lemma_focused_is_leaf(self@.close_focused());
            }
        }
        match self.close(lsp) {
            CloseKind::Done => {},
            CloseKind::This => {
                *self = Buffer::empty();
            },
            CloseKind::Replace(r) => {
                *self = *r;
            },
        }
    }

    /// The language server has nothing to set up in a pane.
    pub fn setup_lsp(&mut self, lsp: &mut LSPData)
        ensures
            *final(self) == *old(self),
            *final(lsp) == *old(lsp),
    {
    }

    /// The first file in the tree whose content has yet to arrive, and how
    /// the host is to read it.
    pub fn wants_load(&self) -> (r: Option<(String, Open)>)
        ensures
            match r {
                Some((name, kind)) => self@.pending() == Some((name@, kind)),
                None => self@.pending() is None,
            },
        decreases self, 0nat,
    {
        match &self.base {
            Base::File(f) => if f.cached {
                None
            } else {
                Some((f.filename.clone(), Open::Text))
            },
            Base::Hex(h) => if h.cached {
                None
            } else {
                Some((h.filename.clone(), Open::Hex))
            },
            Base::Split(s) => s.wants_load(),
            Base::Tabbed(t) => t.wants_load(),
            _ => None,
        }
    }

    /// Takes the content that the host has read for the first file that
    /// waited for it.
    pub fn load(&mut self, content: Content)
        ensures
            final(self)@ == old(self)@.load(content@),
        decreases *old(self), 0nat,
    {
        match &mut self.base {
            Base::File(f) => {
                let text = match content {
                    Content::Text(s) => Some(s),
                    _ => None,
                };
                f.load(text);
            },
            Base::Hex(h) => {
                let bytes = match content {
                    Content::Bytes(b) => Some(b),
                    _ => None,
                };
                h.load(bytes);
            },
            Base::Split(s) => s.load(content),
            Base::Tabbed(t) => t.load(content),
            _ => {},
        }
    }
}

} // verus!
