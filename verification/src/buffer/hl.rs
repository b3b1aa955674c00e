//! The palette pane: the names of the color table, each shown in its own
//! color.

use crate::buffer::{links, push_links, CloseKind, NavDir};
use crate::drawer::{CursorData, DrawOpView, Handle, Line, LineView, TextMode};
use crate::event::Event;
use crate::highlight::{Color, ColorView};
use crate::math::{Rect, Vector};
use crate::strmap::{cut, index_upto, lemma_index_upto, put, StrMap};
use vstd::prelude::*;
use vstd::string::StringExecFns;

verus! {

/// A pane that lists the entries of a color table.
#[derive(Debug, PartialEq)]
pub struct HighlightBuffer {
    pub colors: StrMap<Color>,
}

/// A palette pane: the entries of its table in order.
pub struct HighlightView {
    pub colors: Seq<(Seq<char>, ColorView)>,
}

/// The entries of a color table with each color as its model.
pub open spec fn palette(entries: Seq<(Seq<char>, Color)>) -> Seq<(Seq<char>, ColorView)> {
    Seq::new(entries.len(), |i: int| (entries[i].0, entries[i].1@))
}

/// Looking for a name in a table goes by the names alone.
pub proof fn lemma_palette_index(entries: Seq<(Seq<char>, Color)>, name: Seq<char>, n: int)
    requires
        0 <= n <= entries.len(),
    ensures
        index_upto(palette(entries), name, n) == index_upto(entries, name, n),
    decreases n,
{
    if n > 0 {
        lemma_palette_index(entries, name, n - 1);
    }
}

/// Storing a color in a table stores its model in the table's model.
pub proof fn lemma_palette_put(entries: Seq<(Seq<char>, Color)>, name: Seq<char>, color: Color)
    ensures
        palette(put(entries, name, color)) == put(palette(entries), name, color@),
{
    lemma_palette_index(entries, name, entries.len() as int);
    lemma_index_upto(entries, name, entries.len() as int);
}

/// Taking a name out of a table takes it out of the table's model.
pub proof fn lemma_palette_cut(entries: Seq<(Seq<char>, Color)>, name: Seq<char>)
    ensures
        palette(cut(entries, name)) == cut(palette(entries), name),
{
    lemma_palette_index(entries, name, entries.len() as int);
    lemma_index_upto(entries, name, entries.len() as int);
}

impl View for HighlightBuffer {
    type V = HighlightView;

    open spec fn view(&self) -> HighlightView {
        HighlightView { colors: palette(self.colors.entries()) }
    }
}

/// The line for the entry called `name`: six marks in the entry's own
/// color, then a blank and the name in the foreground color.
pub open spec fn swatch(name: Seq<char>) -> LineView {
    LineView::Text {
        chars: "XXXXXX "@ + name,
        colors: links(name, 6) + links("fg"@, 1) + links("fg"@, name.len()),
    }
}

impl HighlightView {
    /// One line for each entry of the table.
    pub open spec fn rows(self) -> Seq<LineView> {
        Seq::new(self.colors.len(), |i: int| swatch(self.colors[i].0))
    }

    /// What the pane draws in a region.
    pub open spec fn drawn(self, coords: Rect) -> Seq<DrawOpView> {
        seq![DrawOpView::Text { lines: self.rows(), bounds: coords, mode: TextMode::Lines }]
    }
}

impl HighlightBuffer {
    /// A palette pane for a copy of the given table.
    pub fn new(colors: &StrMap<Color>) -> (h: Self)
        ensures
            h@.colors == palette(colors.entries()),
    {
        let h = HighlightBuffer { colors: colors.duplicate() };
        h
    }

    /// A layout pass changes nothing.
    pub fn update(&mut self, size: Vector)
        ensures
            *final(self) == *old(self),
    {
    }

    /// Draws the pane into a region.
    pub fn draw_conts(&self, handle: &mut Handle, coords: Rect)
        ensures
            old(handle).extended_by(final(handle), self@.drawn(coords)),
    {
        let mut rows: Vec<Line> = Vec::new();
        let n = self.colors.len();
        let mut i: usize = 0;
        while i < n
            invariant
                i <= n,
                n == self.colors.entries().len(),
                rows.deep_view() == self@.rows().take(i as int),
            decreases n - i,
        {
            let ghost before = rows.deep_view();
            let name = self.colors.key_at(i);
            let mut colors: Vec<Color> = Vec::new();
            push_links(&mut colors, name.as_str(), 6);
            push_links(&mut colors, "fg", 1);
            push_links(&mut colors, "fg", name.as_str().unicode_len());
            let mut chars = "XXXXXX ".to_string();
            chars.append(name.as_str());
            let row = Line::Text { chars, colors };
            rows.push(row);
            assert(rows.deep_view() =~= before.push(row@));
            i = i + 1;
        }
        assert(self@.rows().take(n as int) =~= self@.rows());
        handle.render_text(rows, coords, TextMode::Lines);
    }

    /// The palette has no cursor.
    pub fn get_cursor(&mut self, size: Vector, char_size: Vector) -> (cur: CursorData)
        ensures
            cur is Hidden,
            *final(self) == *old(self),
    {
        CursorData::Hidden
    }

    /// Events pass without effect.
    pub fn event_process(&mut self, ev: Event, coords: Rect)
        ensures
            *final(self) == *old(self),
    {
    }

    /// Focus cannot move inside a leaf.
    pub fn nav(&mut self, dir: NavDir) -> (handled: bool)
        ensures
            !handled,
            *final(self) == *old(self),
    {
        false
    }

    /// The breadcrumb of the pane.
    pub fn get_path(&self) -> (s: String)
        ensures
            s@ == "Highlight"@,
    {
        "Highlight".to_string()
    }

    /// Closing a leaf leaves it to the parent to take the pane out.
    pub fn close(&mut self) -> (kind: CloseKind)
        ensures
            kind is This,
            *final(self) == *old(self),
    {
        CloseKind::This
    }
}

} // verus!
