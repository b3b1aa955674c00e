//! The drawing boundary: the primitives that panes emit, and the handle
//! that collects them for one frame. The host replays them on its surface.

use crate::highlight::{Color, ColorView};
use crate::logging::{LogLine, LogLineView};
use crate::math::{Rect, Vector};
use vstd::prelude::*;

verus! {

/// The shape of the cursor: a block in normal mode, a thin bar when
/// inserting.
#[derive(PartialEq, Eq, Debug, Clone, Copy, Structural)]
pub enum CursorStyle {
    Block,
    Bar,
}

/// Where the cursor is drawn, if at all.
#[derive(PartialEq, Eq, Debug, Clone, Copy, Structural)]
pub enum CursorData {
    Hidden,
    Show { pos: Vector, size: Vector, kind: CursorStyle },
}

/// How a block of lines is laid out in its bounds.
#[derive(PartialEq, Eq, Debug, Clone, Copy, Structural)]
pub enum TextMode {
    Lines,
    Center,
}

/// One line of a text block: characters with one color token each, or an
/// image of a given height.
#[derive(Debug, PartialEq)]
pub enum Line {
    Text { chars: String, colors: Vec<Color> },
    Image { path: String, height: usize },
}

/// A line with its texts as characters.
pub enum LineView {
    Text { chars: Seq<char>, colors: Seq<ColorView> },
    Image { path: Seq<char>, height: usize },
}

/// The status line: what stands at its left, centre and right.
#[derive(Debug, PartialEq)]
pub struct StatusLine {
    pub left: String,
    pub center: String,
    pub right: String,
}

/// A status line with its texts as characters.
pub struct StatusLineView {
    pub left: Seq<char>,
    pub center: Seq<char>,
    pub right: Seq<char>,
}

/// One drawing primitive.
#[derive(Debug, PartialEq)]
pub enum DrawOp {
    Text { lines: Vec<Line>, bounds: Rect, mode: TextMode },
    Line { start: Vector, end: Vector, color: Color },
    Rect { start: Vector, size: Vector, color: Color },
    Cursor { cur: CursorData },
    Status { st: StatusLine, bounds: Rect },
}

/// A drawing primitive with its texts as characters.
pub enum DrawOpView {
    Text { lines: Seq<LineView>, bounds: Rect, mode: TextMode },
    Line { start: Vector, end: Vector, color: ColorView },
    Rect { start: Vector, size: Vector, color: ColorView },
    Cursor { cur: CursorData },
    Status { st: StatusLineView, bounds: Rect },
}

impl View for Line {
    type V = LineView;

    open spec fn view(&self) -> LineView {
        match self {
            Line::Text { chars, colors } => LineView::Text {
                chars: chars@,
                colors: colors.deep_view(),
            },
            Line::Image { path, height } => LineView::Image { path: path@, height: *height },
        }
    }
}

impl DeepView for Line {
    type V = LineView;

    open spec fn deep_view(&self) -> LineView {
        self@
    }
}

impl View for StatusLine {
    type V = StatusLineView;

    open spec fn view(&self) -> StatusLineView {
        StatusLineView { left: self.left@, center: self.center@, right: self.right@ }
    }
}

impl View for DrawOp {
    type V = DrawOpView;

    open spec fn view(&self) -> DrawOpView {
        match self {
            DrawOp::Text { lines, bounds, mode } => DrawOpView::Text {
                lines: lines.deep_view(),
                bounds: *bounds,
                mode: *mode,
            },
            DrawOp::Line { start, end, color } => DrawOpView::Line {
                start: *start,
                end: *end,
                color: color@,
            },
            DrawOp::Rect { start, size, color } => DrawOpView::Rect {
                start: *start,
                size: *size,
                color: color@,
            },
            DrawOp::Cursor { cur } => DrawOpView::Cursor { cur: *cur },
            DrawOp::Status { st, bounds } => DrawOpView::Status { st: st@, bounds: *bounds },
        }
    }
}

impl DeepView for DrawOp {
    type V = DrawOpView;

    open spec fn deep_view(&self) -> DrawOpView {
        self@
    }
}

impl CursorData {
    /// The cursor moved by `off`, each coordinate saturating; a hidden
    /// cursor stays hidden.
    pub open spec fn moved(self, off: Vector) -> CursorData {
        match self {
            CursorData::Hidden => CursorData::Hidden,
            CursorData::Show { pos, size, kind } => CursorData::Show {
                pos: pos.plus(off),
                size,
                kind,
            },
        }
    }

    /// Moves the cursor by `off`.
    pub fn offset(&mut self, off: Vector)
        ensures
            *final(self) == old(self).moved(off),
    {
        match *self {
            CursorData::Show { pos, size, kind } => {
                *self = CursorData::Show { pos: pos.shifted(off), size, kind };
            },
            CursorData::Hidden => {},
        }
    }
}

/// One frame as the panes see it: the size of a character cell and the
/// captured log as the host reports them, and the primitives drawn so far.
pub struct Handle<'a> {
    pub char_size: Vector,
    pub log: &'a Vec<LogLine>,
    pub ops: Vec<DrawOp>,
}

impl<'a> Handle<'a> {
    /// The primitives drawn so far, oldest first.
    pub open spec fn drawn(&self) -> Seq<DrawOpView> {
        self.ops.deep_view()
    }

    /// The captured log, oldest record first.
    pub open spec fn log_view(&self) -> Seq<LogLineView> {
        self.log.deep_view()
    }

    /// Whether `after` is this frame with `added` drawn behind what was
    /// there.
    pub open spec fn extended_by(&self, after: &Handle<'a>, added: Seq<DrawOpView>) -> bool {
        &&& after.char_size == self.char_size
        &&& after.log == self.log
        &&& after.drawn() == self.drawn() + added
    }

    /// A frame with nothing drawn.
    pub fn new(char_size: Vector, log: &'a Vec<LogLine>) -> (h: Self)
        ensures
            h.char_size == char_size,
            h.log == log,
            h.drawn() == Seq::<DrawOpView>::empty(),
    {
        let h = Handle { char_size, log, ops: Vec::new() };
        h
    }

    /// Draws one primitive behind those that are there.
    pub fn render(&mut self, op: DrawOp)
        ensures
            old(self).extended_by(final(self), seq![op@]),
    {
        self.ops.push(op);
        assert(self.drawn() =~= old(self).drawn() + seq![op@]);
    }

    /// Draws a block of lines.
    pub fn render_text(&mut self, lines: Vec<Line>, bounds: Rect, mode: TextMode)
        ensures
            old(self).extended_by(
                final(self),
                seq![DrawOpView::Text { lines: lines.deep_view(), bounds, mode }],
            ),
    {
        self.render(DrawOp::Text { lines, bounds, mode });
    }

    /// Draws a line from `start` to `end`.
    pub fn render_line(&mut self, start: Vector, end: Vector, color: Color)
        ensures
            old(self).extended_by(final(self), seq![DrawOpView::Line { start, end, color: color@ }]),
    {
        self.render(DrawOp::Line { start, end, color });
    }

    /// Fills a rectangle.
    pub fn render_rect(&mut self, start: Vector, size: Vector, color: Color)
        ensures
            old(self).extended_by(final(self), seq![DrawOpView::Rect { start, size, color: color@ }]),
    {
        self.render(DrawOp::Rect { start, size, color });
    }

    /// Places the cursor.
    pub fn render_cursor(&mut self, cur: CursorData)
        ensures
            old(self).extended_by(final(self), seq![DrawOpView::Cursor { cur }]),
    {
        self.render(DrawOp::Cursor { cur });
    }

    /// Draws the status line.
    pub fn render_status(&mut self, st: StatusLine, size: Rect)
        ensures
            old(self).extended_by(final(self), seq![DrawOpView::Status { st: st@, bounds: size }]),
    {
        self.render(DrawOp::Status { st, bounds: size });
    }

    /// The size of one character cell.
    pub fn get_char_size(&self) -> (r: Vector)
        ensures
            r == self.char_size,
    {
        self.char_size
    }
}

} // verus!
