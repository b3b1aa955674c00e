//! The placeholder pane: a slot that holds nothing.

use crate::buffer::{create_line, plain_line, CloseKind, NavDir};
use crate::drawer::{CursorData, DrawOpView, Handle, Line, LineView, TextMode};
use crate::event::Event;
use crate::math::{Rect, Vector};
use vstd::prelude::*;

verus! {

/// A pane without content. Containers may discard it.
#[derive(Debug, PartialEq, Eq, Clone, Copy, Structural)]
pub struct EmptyBuffer {}

/// The lines that an empty pane shows: a picture and two lines of text.
pub open spec fn empty_lines() -> Seq<LineView> {
    seq![
        LineView::Image { path: "lol.png"@, height: 128 },
        plain_line("        EMPTY BUFFER        "@),
        plain_line("Press Ctrl-O to open a file!"@),
    ]
}

/// What an empty pane draws in a region: its lines, centred.
pub open spec fn empty_drawn(coords: Rect) -> Seq<DrawOpView> {
    seq![DrawOpView::Text { lines: empty_lines(), bounds: coords, mode: TextMode::Center }]
}

impl EmptyBuffer {
    /// A layout pass changes nothing.
    pub fn update(&mut self, size: Vector) {
    }

    /// Draws the pane into a region.
    pub fn draw_conts(&self, handle: &mut Handle, coords: Rect)
        ensures
            old(handle).extended_by(final(handle), empty_drawn(coords)),
    {
        let mut lines: Vec<Line> = Vec::new();
        lines.push(Line::Image { path: "lol.png".to_string(), height: 128 });
        lines.push(create_line("        EMPTY BUFFER        ".to_string()));
        lines.push(create_line("Press Ctrl-O to open a file!".to_string()));
        assert(lines.deep_view() =~= empty_lines());
        handle.render_text(lines, coords, TextMode::Center);
    }

    /// An empty pane has no cursor.
    pub fn get_cursor(&mut self, size: Vector, char_size: Vector) -> (cur: CursorData)
        ensures
            cur is Hidden,
    {
        CursorData::Hidden
    }

    /// Events pass without effect.
    pub fn event_process(&mut self, ev: Event, coords: Rect) {
    }

    /// Focus cannot move inside a leaf.
    pub fn nav(&mut self, dir: NavDir) -> (handled: bool)
        ensures
            !handled,
    {
        false
    }

    /// The breadcrumb of the pane.
    pub fn get_path(&self) -> (s: String)
        ensures
            s@ == "Empty"@,
    {
        "Empty".to_string()
    }

    /// Closing a leaf leaves it to the parent to take the pane out.
    pub fn close(&mut self) -> (kind: CloseKind)
        ensures
            kind is This,
    {
        CloseKind::This
    }

    /// An empty pane is the one kind that is empty.
    pub fn is_empty(&self) -> (r: bool)
        ensures
            r,
    {
        true
    }
}

} // verus!
