//! The byte pane: the bytes of a file in rows of sixteen, with a cursor,
//! a scroll offset and an editing mode.

use crate::buffer::file::{gutter, gutter_width};
use crate::buffer::{links, push_links, CloseKind, NavDir};
use crate::drawer::{CursorData, CursorStyle, DrawOpView, Handle, Line, LineView, TextMode};
use crate::event::{Event, EventView, Mods, Nav};
use crate::highlight::{Color, ColorView};
use crate::lsp::{LSPData, Request, RequestView};
use crate::math::{
    clip, clip_i64, len_i32, limit, limit_i32, quot, sat_add, sat_div, sat_mul, sat_sub, Rect,
    Vector,
};
use crate::text::{format_number, numeral, padded, push_char, push_chars};
use vstd::prelude::*;
use vstd::string::StringExecFns;

verus! {

/// Whether keys move the cursor or write bytes.
#[derive(PartialEq, Eq, Debug, Clone, Copy, Structural)]
pub enum HexMode {
    Normal,
    Insert,
}

/// A pane that shows the bytes of a file. The content arrives once,
/// through `load`; `cached` says that it has.
#[derive(Debug, PartialEq)]
pub struct HexBuffer {
    pub filename: String,
    pub cached: bool,
    pub data: Vec<u8>,
    pub pos: Vector,
    pub scroll: i32,
    pub mode: HexMode,
    pub height: i32,
    pub char_size: Vector,
}

/// A byte pane with its name as characters.
pub struct HexView {
    pub filename: Seq<char>,
    pub cached: bool,
    pub data: Seq<u8>,
    pub pos: Vector,
    pub scroll: i32,
    pub mode: HexMode,
    pub height: i32,
    pub char_size: Vector,
}

impl View for HexBuffer {
    type V = HexView;

    open spec fn view(&self) -> HexView {
        HexView {
            filename: self.filename@,
            cached: self.cached,
            data: self.data@,
            pos: self.pos,
            scroll: self.scroll,
            mode: self.mode,
            height: self.height,
            char_size: self.char_size,
        }
    }
}

/// Whether a byte is shown as itself in the text column.
pub open spec fn printable(b: u8) -> bool {
    32 < b < 128
}

/// The two characters that stand for cell `k`: the byte in hexadecimal,
/// or two dots behind the end of the data.
pub open spec fn cell_chars(data: Seq<u8>, k: int) -> Seq<char> {
    if 0 <= k < data.len() {
        padded(numeral(data[k] as nat, 16), 2, '0')
    } else {
        ".."@
    }
}

/// The colors of cell `k`: bytes that are not printable stand out.
pub open spec fn cell_colors(data: Seq<u8>, k: int) -> Seq<ColorView> {
    if 0 <= k < data.len() && !printable(data[k]) {
        links("error"@, 2)
    } else {
        links("fg"@, 2)
    }
}

/// What cell `k` adds to the text column: the byte as a character, a
/// blank for 0, a dot for any other byte that is not printable, and
/// nothing behind the end of the data.
pub open spec fn cell_glyph(data: Seq<u8>, k: int) -> Seq<char> {
    if 0 <= k < data.len() {
        if data[k] == 0 {
            seq![' ']
        } else if printable(data[k]) {
            seq![data[k] as char]
        } else {
            seq!['.']
        }
    } else {
        Seq::empty()
    }
}

/// A row that starts at byte `at`, after `n` of its sixteen cells: the
/// characters, their colors, and the text column so far. The address takes
/// eight digits and a blank; every fourth cell is followed by a blank.
pub open spec fn row_scan(data: Seq<u8>, at: int, n: int) -> (Seq<char>, Seq<ColorView>, Seq<char>)
    decreases n,
{
    if n <= 0 {
        (padded(numeral(at as nat, 16), 8, '0') + seq![' '], links("lineNumberFg"@, 9), Seq::empty())
    } else {
        let (chars, colors, glyphs) = row_scan(data, at, n - 1);
        let k = at + n - 1;
        let chars = chars + cell_chars(data, k);
        let colors = colors + cell_colors(data, k);
        let glyphs = glyphs + cell_glyph(data, k);
        if n % 4 == 0 {
            (chars + seq![' '], colors + links("fg"@, 1), glyphs)
        } else {
            (chars, colors, glyphs)
        }
    }
}

/// The row that starts at byte `at`: address, sixteen cells and the text
/// column, which has no colors of its own.
pub open spec fn hex_row(data: Seq<u8>, at: int) -> LineView {
    let (chars, colors, glyphs) = row_scan(data, at, 16);
    LineView::Text { chars: chars + glyphs, colors }
}

/// The byte at which row `r` starts when the first row starts at `start`.
/// Rows advance by sixteen bytes and stop at the end of the data.
pub open spec fn row_start(start: int, len: int, r: int) -> int {
    if start >= len {
        start
    } else if start + 16 * r >= len {
        len
    } else {
        start + 16 * r
    }
}

impl HexView {
    /// A pane for a file whose content has yet to arrive.
    pub open spec fn fresh(filename: Seq<char>) -> HexView {
        HexView {
            filename,
            cached: false,
            data: Seq::empty(),
            pos: Vector { x: 0, y: 0 },
            scroll: 0,
            mode: HexMode::Normal,
            height: 0,
            char_size: Vector { x: 0, y: 0 },
        }
    }

    /// The number of bytes as a coordinate.
    pub open spec fn rows(self) -> int {
        clip(self.data.len() as int)
    }

    /// The pane once the content of its file has arrived. A file that could
    /// not be read leaves a single zero byte. A pane that has its content
    /// keeps it.
    pub open spec fn loaded(self, content: Option<Seq<u8>>) -> HexView {
        if self.cached {
            self
        } else {
            HexView {
                cached: true,
                data: match content {
                    Some(bytes) => bytes,
                    None => seq![0u8],
                },
                ..self
            }
        }
    }

    /// The scroll offset after one layout pass with the cursor on row `y`:
    /// it moves by at most one line, up when the cursor is above the second
    /// visible row, then down when it is below the last but one.
    pub open spec fn scrolled(self, y: int) -> int {
        let up = if y - self.scroll < 1 && self.scroll > 0 {
            self.scroll - 1
        } else {
            self.scroll as int
        };
        if y - up > self.height - 1 && up < self.rows() {
            up + 1
        } else {
            up
        }
    }

    /// Whether the cursor stands in the grid: on a row of the data and in
    /// one of the sixteen columns.
    pub open spec fn in_grid(self) -> bool {
        &&& 0 <= self.pos.y < self.data.len()
        &&& 0 <= self.pos.x <= 15
    }

    /// The pane after a layout pass for the given size, whatever the size:
    /// the cursor is brought into the grid of sixteen columns and the
    /// scroll offset follows it by one line. The column is also held to
    /// what the width leaves; in a pane too narrow for any column it is 0.
    pub open spec fn updated(self, size: Vector) -> HexView {
        let x = limit(self.pos.x as int, 0, clip(size.x - 6));
        let y = limit(self.pos.y as int, 0, self.rows() - 1);
        let x = if y < self.rows() {
            limit(x, 0, 15)
        } else {
            x
        };
        HexView {
            pos: Vector { x: x as i32, y: y as i32 },
            scroll: self.scrolled(y) as i32,
            ..self
        }
    }

    /// The pane after it was asked for its cursor: it remembers how many
    /// rows fit and how large a character is.
    pub open spec fn measured(self, size: Vector, char_size: Vector) -> HexView {
        HexView {
            height: clip(quot(size.y as int, char_size.y as int)) as i32,
            char_size,
            ..self
        }
    }

    /// Where the cursor is drawn: two characters wide, on its cell behind
    /// the nine columns of the address, and up by the rows scrolled away.
    pub open spec fn cursor(self, char_size: Vector) -> CursorData {
        let column = clip(clip(self.pos.x * 2) + quot(self.pos.x as int, 4));
        (CursorData::Show {
            pos: Vector {
                x: clip(column * char_size.x) as i32,
                y: clip(self.pos.y * char_size.y) as i32,
            },
            size: Vector { x: clip(char_size.x * 2) as i32, y: char_size.y },
            kind: if self.mode == HexMode::Normal {
                CursorStyle::Block
            } else {
                CursorStyle::Bar
            },
        }).moved(
            Vector {
                x: clip(9 * char_size.x) as i32,
                y: clip(-(self.scroll as int) * char_size.y) as i32,
            },
        )
    }

    /// The pane with its cursor moved by the given number of columns and
    /// rows.
    pub open spec fn stepped(self, dx: int, dy: int) -> HexView {
        HexView {
            pos: Vector { x: clip(self.pos.x + dx) as i32, y: clip(self.pos.y + dy) as i32 },
            ..self
        }
    }

    /// The cursor put where the pointer is, in a pane drawn at `coords`.
    pub open spec fn pointed(self, at: Vector, coords: Rect) -> HexView {
        let cell = clip(quot(clip(quot(clip(at.x - coords.x), self.char_size.x as int)), 2) - 5);
        HexView {
            pos: Vector {
                x: clip(cell - quot(cell, 9)) as i32,
                y: clip(clip(quot(clip(at.y - coords.y), self.char_size.y as int)) + self.scroll) as i32,
            },
            ..self
        }
    }

    /// The pane after an event. Arrow keys without modifiers move the
    /// cursor; `i` enters insert mode and Escape leaves it; the pointer
    /// places the cursor.
    pub open spec fn after_event(self, ev: EventView, coords: Rect) -> HexView {
        match ev {
            EventView::Nav(mods, nav) => if mods == Mods::none() {
                match nav {
                    Nav::Down => self.stepped(0, 1),
                    Nav::Up => self.stepped(0, -1),
                    Nav::Left => self.stepped(-1, 0),
                    Nav::Right => self.stepped(1, 0),
                    Nav::Escape => HexView { mode: HexMode::Normal, ..self },
                    _ => self,
                }
            } else {
                self
            },
            EventView::Key(mods, c) => if mods == Mods::none() && self.mode == HexMode::Normal && c
                == 'i' {
                HexView { mode: HexMode::Insert, ..self }
            } else {
                self
            },
            EventView::Mouse(at, _) => self.pointed(at, coords),
            _ => self,
        }
    }

    /// The file that a save goes to: the one that the save names, or the
    /// pane's own where it names none.
    pub open spec fn target(self, path: Option<Seq<char>>) -> Seq<char> {
        match path {
            Some(p) => p,
            None => self.filename,
        }
    }

    /// What an event asks of the host: a save writes the bytes to the file
    /// that it names, or to the pane's file where it names none.
    pub open spec fn requests(self, ev: EventView) -> Seq<RequestView> {
        match ev {
            EventView::Save(path) => seq![
                RequestView::WriteBytes { file: self.target(path), data: self.data },
            ],
            _ => Seq::empty(),
        }
    }

    /// The byte at which the first row starts.
    pub open spec fn first_byte(self) -> int {
        if self.scroll < 0 {
            0
        } else {
            16 * self.scroll
        }
    }

    /// The rows that fill a region `h` high.
    pub open spec fn rows_drawn(self, h: int) -> Seq<LineView> {
        Seq::new(
            if h < 0 {
                0
            } else {
                h as nat
            },
            |r: int| hex_row(self.data, row_start(self.first_byte(), self.data.len() as int, r)),
        )
    }

    /// What the pane draws in a region: the ground and the edge of the
    /// address column, eight and a half characters wide, then the rows.
    pub open spec fn drawn(self, char_size: Vector, coords: Rect) -> Seq<DrawOpView> {
        let gutter = gutter_width(char_size.x as int, 17);
        let edge = clip(coords.x + gutter) as i32;
        seq![
            DrawOpView::Rect {
                start: Vector { x: coords.x, y: coords.y },
                size: Vector { x: gutter, y: coords.h },
                color: ColorView::Link("lineNumberBg"@),
            },
            DrawOpView::Line {
                start: Vector { x: edge, y: coords.y },
                end: Vector { x: edge, y: clip(coords.y + coords.h) as i32 },
                color: ColorView::Link("lineNumberSplit"@),
            },
            DrawOpView::Text { lines: self.rows_drawn(coords.h as int), bounds: coords, mode: TextMode::Lines },
        ]
    }

    /// The breadcrumb of the pane.
    pub open spec fn path(self) -> Seq<char> {
        "Hex["@ + self.filename + "]"@
    }
}

impl HexBuffer {
    /// A pane for the named file. Its content has yet to arrive.
    pub fn new(filename: String) -> (f: Self)
        ensures
            f@ == HexView::fresh(filename@),
    {
        HexBuffer {
            filename,
            cached: false,
            data: Vec::new(),
            pos: Vector { x: 0, y: 0 },
            scroll: 0,
            mode: HexMode::Normal,
            height: 0,
            char_size: Vector { x: 0, y: 0 },
        }
    }

    /// Takes the content of the file as the host has read it; `None` where
    /// it could not be read.
    pub fn load(&mut self, content: Option<Vec<u8>>)
        ensures
            final(self)@ == old(self)@.loaded(
                match content {
                    Some(bytes) => Some(bytes@),
                    None => None,
                },
            ),
    {
        if self.cached {
            return ;
        }
        match content {
            Some(bytes) => {
                self.data = bytes;
            },
            None => {
                let mut zero: Vec<u8> = Vec::new();
                zero.push(0);
                self.data = zero;
            },
        }
        self.cached = true;
    }

    /// One layout pass for a pane of the given size.
    pub fn update(&mut self, size: Vector)
        ensures
            final(self)@ == old(self)@.updated(size),
            old(self)@.data.len() > 0 ==> final(self)@.in_grid(),
    {
        let rows = len_i32(self.data.len());
        let x = limit_i32(self.pos.x, 0, sat_sub(size.x, 6));
        let y = limit_i32(self.pos.y, 0, rows - 1);
        let mut scroll = self.scroll;
        if (y as i64) - (scroll as i64) < 1 && scroll > 0 {
            scroll = scroll - 1;
        }
        if (y as i64) - (scroll as i64) > (self.height as i64) - 1 && scroll < rows {
            scroll = scroll + 1;
        }
        let x = if y < rows {
            limit_i32(x, 0, 15)
        } else {
            x
        };
        self.pos = Vector { x, y };
        self.scroll = scroll;
    }

    /// Where the cursor is drawn in a pane of the given size. The pane
    /// remembers how many rows fit and how large a character is.
    pub fn get_cursor(&mut self, size: Vector, char_size: Vector) -> (cur: CursorData)
        ensures
            final(self)@ == old(self)@.measured(size, char_size),
            cur == old(self)@.cursor(char_size),
    {
        self.height = sat_div(size.y, char_size.y);
        self.char_size = char_size;
        let column = sat_add(sat_mul(self.pos.x, 2), sat_div(self.pos.x, 4));
        let mut result = CursorData::Show {
            pos: Vector { x: sat_mul(column, char_size.x), y: sat_mul(self.pos.y, char_size.y) },
            size: Vector { x: sat_mul(char_size.x, 2), y: char_size.y },
            kind: if self.mode == HexMode::Normal {
                CursorStyle::Block
            } else {
                CursorStyle::Bar
            },
        };
        assert(-0x8000_0000 * 0x8000_0000 <= -(self.scroll as int) * char_size.y <= 0x8000_0000
            * 0x8000_0000) by (nonlinear_arith)
            requires
                -0x8000_0000 <= self.scroll <= 0x8000_0000,
                -0x8000_0000 <= char_size.y <= 0x8000_0000,
        ;
        let up = clip_i64(-(self.scroll as i64) * (char_size.y as i64));
        result.offset(Vector { x: sat_mul(9, char_size.x), y: up });
        result
    }

    /// Handles one event. A save is recorded in `lsp` for the host.
    pub fn event_process(&mut self, ev: Event, lsp: &mut LSPData, coords: Rect)
        ensures
            final(self)@ == old(self)@.after_event(ev@, coords),
            final(lsp)@ == old(lsp)@ + old(self)@.requests(ev@),
    {
        match ev {
            Event::Nav(mods, nav) => {
                if mods.is_none() {
                    match nav {
                        Nav::Down => {
                            self.pos = Vector { x: self.pos.x, y: sat_add(self.pos.y, 1) };
                        },
                        Nav::Up => {
                            self.pos = Vector { x: self.pos.x, y: sat_add(self.pos.y, -1) };
                        },
                        Nav::Left => {
                            self.pos = Vector { x: sat_add(self.pos.x, -1), y: self.pos.y };
                        },
                        Nav::Right => {
                            self.pos = Vector { x: sat_add(self.pos.x, 1), y: self.pos.y };
                        },
                        Nav::Escape => {
                            self.mode = HexMode::Normal;
                        },
                        _ => {},
                    }
                }
            },
            Event::Key(mods, c) => {
                if mods.is_none() && self.mode == HexMode::Normal && c == 'i' {
                    self.mode = HexMode::Insert;
                }
            },
            Event::Mouse(at, _) => {
                let cell = sat_sub(
                    sat_div(sat_div(sat_sub(at.x, coords.x), self.char_size.x), 2),
                    5,
                );
                self.pos = Vector {
                    x: sat_sub(cell, sat_div(cell, 9)),
                    y: sat_add(sat_div(sat_sub(at.y, coords.y), self.char_size.y), self.scroll),
                };
            },
            Event::Save(path) => {
                let file = match path {
                    Some(p) => p,
                    None => self.filename.clone(),
                };
                lsp.push(Request::WriteBytes { file, data: self.data.clone() });
            },
            _ => {},
        }
    }

    /// The row that starts at byte `at`.
    fn draw_row(&self, at: u64) -> (l: Line)
        ensures
            l@ == hex_row(self@.data, at as int),
    {
        let mut chars: Vec<char> = format_number(at, 16, 8, '0');
        chars.push(' ');
        let mut colors: Vec<Color> = Vec::new();
        push_links(&mut colors, "lineNumberFg", 9);
        let mut line = crate::text::string_of(&chars);
        let mut glyphs: Vec<char> = Vec::new();
        let mut n: usize = 0;
        while n < 16
            invariant
                n <= 16,
                (line@, colors.deep_view(), glyphs@) == row_scan(self@.data, at as int, n as int),
            decreases 16 - n,
        {
            if at < self.data.len() as u64 && (n as u64) < self.data.len() as u64 - at {
                let b = self.data[at as usize + n];
                let cell = format_number(b as u64, 16, 2, '0');
                push_chars(&mut line, &cell);
                if b == 0 {
                    glyphs.push(' ');
                    push_links(&mut colors, "error", 2);
                } else if b > 32 && b < 128 {
                    glyphs.push(b as char);
                    push_links(&mut colors, "fg", 2);
                } else {
                    glyphs.push('.');
                    push_links(&mut colors, "error", 2);
                }
            } else {
                line.append("..");
                push_links(&mut colors, "fg", 2);
            }
            n = n + 1;
            if n % 4 == 0 {
                push_char(&mut line, ' ');
                push_links(&mut colors, "fg", 1);
            }
        }
        push_chars(&mut line, &glyphs);
        Line::Text { chars: line, colors }
    }

    /// Draws the pane into a region.
    pub fn draw_conts(&self, handle: &mut Handle, coords: Rect)
        ensures
            old(handle).extended_by(final(handle), self@.drawn(old(handle).char_size, coords)),
    {
        let mut rows: Vec<Line> = Vec::new();
        let start: u64 = if self.scroll < 0 {
            0
        } else {
            16 * (self.scroll as u64)
        };
        let len: u64 = self.data.len() as u64;
        let mut at: u64 = start;
        let mut idx: i32 = 0;
        while idx < coords.h
            invariant
                0 <= idx,
                idx <= coords.h || idx == 0,
                len == self.data.len(),
                at == row_start(self@.first_byte(), len as int, idx as int),
                rows.deep_view() == self@.rows_drawn(idx as int),
            decreases coords.h - idx,
        {
            let ghost before = rows.deep_view();
            let row = self.draw_row(at);
            rows.push(row);
            assert(rows.deep_view() =~= before.push(row@));
            if at < len {
                at = if len - at < 16 {
                    len
                } else {
                    at + 16
                };
            }
            idx = idx + 1;
        }
        let w = handle.get_char_size().x;
        let width = gutter(w, 17);
        let edge = sat_add(coords.x, width);
        handle.render_rect(
            Vector { x: coords.x, y: coords.y },
            Vector { x: width, y: coords.h },
            Color::link("lineNumberBg"),
        );
        handle.render_line(
            Vector { x: edge, y: coords.y },
            Vector { x: edge, y: sat_add(coords.y, coords.h) },
            Color::link("lineNumberSplit"),
        );
        handle.render_text(rows, coords, TextMode::Lines);
        assert(handle.drawn() =~= old(handle).drawn() + self@.drawn(old(handle).char_size, coords));
    }

    /// Focus cannot move inside a leaf.
    pub fn nav(&mut self, dir: NavDir) -> (handled: bool)
        ensures
            !handled,
            *final(self) == *old(self),
    {
        false
    }

    /// The breadcrumb of the pane.
    pub fn get_path(&self) -> (s: String)
        ensures
            s@ == self@.path(),
    {
        let mut s = "Hex[".to_string();
        s.append(self.filename.as_str());
        s.append("]");
        s
    }

    /// Closes the pane: the language server is told, and the parent has to
    /// take the pane out.
    pub fn close(&mut self, lsp: &mut LSPData) -> (kind: CloseKind)
        ensures
            kind is This,
            *final(self) == *old(self),
            final(lsp)@ == old(lsp)@.push(RequestView::Closed { file: old(self)@.filename }),
    {
        lsp.close_file(self.filename.clone());
        CloseKind::This
    }
}

} // verus!
