//! The text-file pane: lines of text, a cursor, a scroll offset and an
//! editing mode.

use crate::buffer::{links, push_links, CloseKind, NavDir};
use crate::drawer::{CursorData, CursorStyle, DrawOpView, Handle, Line, LineView, TextMode};
use crate::event::{Event, EventView, Mods, Nav};
use crate::highlight::{Color, ColorView};
use crate::lsp::{LSPData, Request, RequestView};
use crate::math::{
    clip, len_i32, limit, limit_i32, quot, sat_add, sat_div, sat_mul, sat_sub, Rect, Vector,
};
use crate::text::{chars_of, format_number, lines, numeral, padded, push_char, split_lines, string_of};
use vstd::prelude::*;
use vstd::string::StringExecFns;

verus! {

/// Whether keys move the cursor or write text.
#[derive(PartialEq, Eq, Debug, Clone, Copy, Structural)]
pub enum FileMode {
    Normal,
    Insert,
}

/// A pane that shows and edits a text file. The content arrives once,
/// through `load`; `cached` says that it has.
#[derive(Debug, PartialEq)]
pub struct FileBuffer {
    pub filename: String,
    pub cached: bool,
    pub data: Vec<String>,
    pub pos: Vector,
    pub scroll: i32,
    pub mode: FileMode,
    pub height: i32,
    pub char_size: Vector,
}

/// A text-file pane with its texts as characters.
pub struct FileView {
    pub filename: Seq<char>,
    pub cached: bool,
    pub data: Seq<Seq<char>>,
    pub pos: Vector,
    pub scroll: i32,
    pub mode: FileMode,
    pub height: i32,
    pub char_size: Vector,
}

impl View for FileBuffer {
    type V = FileView;

    open spec fn view(&self) -> FileView {
        FileView {
            filename: self.filename@,
            cached: self.cached,
            data: self.data.deep_view(),
            pos: self.pos,
            scroll: self.scroll,
            mode: self.mode,
            height: self.height,
            char_size: self.char_size,
        }
    }
}

/// The part of `s` behind the last `sep` among its first `n` characters;
/// all of them where there is none.
pub open spec fn tail_scan(s: Seq<char>, sep: char, n: int) -> Seq<char>
    decreases n,
{
    if n <= 0 {
        Seq::empty()
    } else if s[n - 1] == sep {
        Seq::empty()
    } else {
        tail_scan(s, sep, n - 1).push(s[n - 1])
    }
}

/// The part of `s` behind its last `sep`; `s` itself where it holds none.
pub open spec fn tail_after(s: Seq<char>, sep: char) -> Seq<char> {
    tail_scan(s, sep, s.len() as int)
}

/// The file type that a file name stands for: what follows the last dot of
/// its last path segment, or that segment where it has no dot.
pub open spec fn filetype_of(filename: Seq<char>) -> Seq<char> {
    tail_after(tail_after(filename, '/'), '.')
}

/// The part of `s` behind its last `sep`.
pub fn after_last(s: &Vec<char>, sep: char) -> (r: Vec<char>)
    ensures
        r@ == tail_after(s@, sep),
{
    let mut r: Vec<char> = Vec::new();
    let mut i: usize = 0;
    while i < s.len()
        invariant
            i <= s.len(),
            r@ == tail_scan(s@, sep, i as int),
        decreases s.len() - i,
    {
        if s[i] == sep {
            r = Vec::new();
        } else {
            r.push(s[i]);
        }
        i = i + 1;
    }
    r
}

/// The file type that a file name stands for.
pub fn filetype(filename: &str) -> (r: String)
    ensures
        r@ == filetype_of(filename@),
{
    let name = chars_of(filename);
    let segment = after_last(&name, '/');
    let ext = after_last(&segment, '.');
    string_of(&ext)
}

/// The text of a file: each line followed by a line feed.
pub open spec fn content_of(data: Seq<Seq<char>>) -> Seq<char>
    decreases data.len(),
{
    if data.len() == 0 {
        Seq::empty()
    } else {
        content_of(data.drop_last()) + data.last() + seq!['\n']
    }
}

/// The width of a column of `halves` half characters, one character being
/// `w` wide.
pub open spec fn gutter_width(w: int, halves: int) -> i32 {
    clip(quot(clip(w * halves), 2)) as i32
}

/// The width of a column of `halves` half characters.
pub fn gutter(w: i32, halves: i32) -> (r: i32)
    ensures
        r == gutter_width(w as int, halves as int),
{
    sat_div(sat_mul(w, halves), 2)
}

impl FileView {
    /// A pane for a file whose content has yet to arrive.
    pub open spec fn fresh(filename: Seq<char>) -> FileView {
        FileView {
            filename,
            cached: false,
            data: Seq::empty(),
            pos: Vector { x: 0, y: 0 },
            scroll: 0,
            mode: FileMode::Normal,
            height: 0,
            char_size: Vector { x: 0, y: 0 },
        }
    }

    /// The number of lines as a coordinate.
    pub open spec fn rows(self) -> int {
        clip(self.data.len() as int)
    }

    /// Whether the cursor stands on a line, at or between its characters.
    pub open spec fn on_line(self) -> bool {
        &&& 0 <= self.pos.y < self.data.len()
        &&& 0 <= self.pos.x <= self.data[self.pos.y as int].len()
    }

    /// The pane once the content of its file has arrived. What a file that
    /// could not be read, or held no line, leaves is one empty line. A pane
    /// that has its content keeps it.
    pub open spec fn loaded(self, content: Option<Seq<char>>) -> FileView {
        if self.cached {
            self
        } else {
            let read = match content {
                Some(text) => self.data + lines(text),
                None => self.data.push(Seq::empty()),
            };
            FileView {
                cached: true,
                data: if read.len() == 0 {
                    seq![Seq::empty()]
                } else {
                    read
                },
                ..self
            }
        }
    }

    /// The scroll offset after one layout pass with the cursor on row `y`:
    /// it moves by at most one line, up when the cursor is above the second
    /// visible row, then down when it is below the last but one.
    pub open spec fn scrolled(self, y: int) -> int {
        let up = if y - self.scroll < 1 && self.scroll > 0 {
            self.scroll - 1
        } else {
            self.scroll as int
        };
        if y - up > self.height - 1 && up < self.rows() {
            up + 1
        } else {
            up
        }
    }

    /// The pane after a layout pass for the given size, whatever the size:
    /// the cursor is brought onto the text and the scroll offset follows it
    /// by one line. The column is held to what the width leaves behind the
    /// line numbers, and to the line; in a pane too narrow for any column
    /// it is 0.
    pub open spec fn updated(self, size: Vector) -> FileView {
        let x = limit(self.pos.x as int, 0, clip(size.x - 6));
        let y = limit(self.pos.y as int, 0, self.rows() - 1);
        let x = if y < self.data.len() {
            limit(x, 0, clip(self.data[y].len() as int))
        } else {
            x
        };
        FileView {
            pos: Vector { x: x as i32, y: y as i32 },
            scroll: self.scrolled(y) as i32,
            ..self
        }
    }

    /// The pane after it was asked for its cursor: it remembers how many
    /// rows fit and how large a character is.
    pub open spec fn measured(self, size: Vector, char_size: Vector) -> FileView {
        FileView {
            height: clip(quot(size.y as int, char_size.y as int)) as i32,
            char_size,
            ..self
        }
    }

    /// Where the cursor is drawn: five columns right of the text position,
    /// for the line numbers, and up by the rows scrolled away.
    pub open spec fn cursor(self, char_size: Vector) -> CursorData {
        (CursorData::Show {
            pos: Vector {
                x: clip(self.pos.x * char_size.x) as i32,
                y: clip(self.pos.y * char_size.y) as i32,
            },
            size: char_size,
            kind: if self.mode == FileMode::Normal {
                CursorStyle::Block
            } else {
                CursorStyle::Bar
            },
        }).moved(
            Vector {
                x: clip(5 * char_size.x) as i32,
                y: clip(-(self.scroll as int) * char_size.y) as i32,
            },
        )
    }

    /// The pane with its cursor moved by the given number of columns and
    /// rows.
    pub open spec fn stepped(self, dx: int, dy: int) -> FileView {
        FileView {
            pos: Vector { x: clip(self.pos.x + dx) as i32, y: clip(self.pos.y + dy) as i32 },
            ..self
        }
    }

    /// The line under the cursor broken in two at the cursor, which goes to
    /// the start of the second part.
    pub open spec fn broken(self) -> FileView {
        if self.on_line() {
            let y = self.pos.y as int;
            let line = self.data[y];
            FileView {
                data: self.data.update(y, line.take(self.pos.x as int)).insert(
                    y + 1,
                    line.skip(self.pos.x as int),
                ),
                pos: Vector { x: 0, y: clip(y + 1) as i32 },
                ..self
            }
        } else {
            self
        }
    }

    /// The character before the cursor taken out; at the start of a line,
    /// the line joined to the one above.
    pub open spec fn erased(self) -> FileView {
        let y = self.pos.y as int;
        if self.pos.x > 0 {
            if self.on_line() {
                FileView {
                    data: self.data.update(y, self.data[y].remove(self.pos.x - 1)),
                    pos: Vector { x: (self.pos.x - 1) as i32, y: self.pos.y },
                    ..self
                }
            } else {
                self
            }
        } else if 0 < y < self.data.len() {
            FileView {
                data: self.data.update(y - 1, self.data[y - 1] + self.data[y]).remove(y),
                pos: Vector { x: clip(self.data[y - 1].len() as int) as i32, y: (y - 1) as i32 },
                ..self
            }
        } else {
            self
        }
    }

    /// A character written at the cursor, which moves behind it.
    pub open spec fn typed(self, c: char) -> FileView {
        if self.on_line() {
            let y = self.pos.y as int;
            FileView {
                data: self.data.update(y, self.data[y].insert(self.pos.x as int, c)),
                pos: Vector { x: clip(self.pos.x + 1) as i32, y: self.pos.y },
                ..self
            }
        } else {
            self
        }
    }

    /// The cursor put where the pointer is, in a pane drawn at `coords`.
    pub open spec fn pointed(self, at: Vector, coords: Rect) -> FileView {
        FileView {
            pos: Vector {
                x: clip(clip(quot(clip(at.x - coords.x), self.char_size.x as int)) - 5) as i32,
                y: clip(clip(quot(clip(at.y - coords.y), self.char_size.y as int)) + self.scroll) as i32,
            },
            ..self
        }
    }

    /// The pane after an event. Arrow keys move the cursor in either mode;
    /// in insert mode Enter breaks the line, Backspace erases, Escape
    /// leaves the mode and every other key is written; in normal mode `i`
    /// enters insert mode. All of them count only without modifiers. The
    /// pointer places the cursor.
    pub open spec fn after_event(self, ev: EventView, coords: Rect) -> FileView {
        match ev {
            EventView::Nav(mods, nav) => if mods == Mods::none() {
                match nav {
                    Nav::Down => self.stepped(0, 1),
                    Nav::Up => self.stepped(0, -1),
                    Nav::Left => self.stepped(-1, 0),
                    Nav::Right => self.stepped(1, 0),
                    Nav::Enter => if self.mode == FileMode::Insert {
                        self.broken()
                    } else {
                        self
                    },
                    Nav::BackSpace => if self.mode == FileMode::Insert {
                        self.erased()
                    } else {
                        self
                    },
                    Nav::Escape => FileView { mode: FileMode::Normal, ..self },
                }
            } else {
                self
            },
            EventView::Key(mods, c) => if mods == Mods::none() {
                if self.mode == FileMode::Insert {
                    self.typed(c)
                } else if c == 'i' {
                    FileView { mode: FileMode::Insert, ..self }
                } else {
                    self
                }
            } else {
                self
            },
            EventView::Mouse(at, _) => self.pointed(at, coords),
            _ => self,
        }
    }

    /// The file that a save goes to: the one that the save names, or the
    /// pane's own where it names none.
    pub open spec fn target(self, path: Option<Seq<char>>) -> Seq<char> {
        match path {
            Some(p) => p,
            None => self.filename,
        }
    }

    /// What an event asks of the host: a save writes the text to the file
    /// that it names, or to the pane's file where it names none, and tells
    /// the language server of that file and text.
    pub open spec fn requests(self, ev: EventView) -> Seq<RequestView> {
        match ev {
            EventView::Save(path) => seq![
                RequestView::WriteText { file: self.target(path), content: content_of(self.data) },
                RequestView::Saved { file: self.target(path), content: content_of(self.data) },
            ],
            _ => Seq::empty(),
        }
    }

    /// Row `k` of the text as it is drawn: the line number in four columns,
    /// a blank and the line; below the text, a single blank.
    pub open spec fn row(self, k: int) -> LineView {
        if 0 <= k < self.data.len() {
            LineView::Text {
                chars: padded(numeral((k + 1) as nat, 10), 4, ' ') + seq![' '] + self.data[k],
                colors: links("lineNumberFg"@, 5) + links("fg"@, self.data[k].len()),
            }
        } else {
            LineView::Text { chars: " "@, colors: links("lineNumberFg"@, 1) }
        }
    }

    /// The rows that fill a region `h` high.
    pub open spec fn rows_drawn(self, h: int) -> Seq<LineView> {
        Seq::new(
            if h < 0 {
                0
            } else {
                h as nat
            },
            |i: int| self.row(clip(i + self.scroll)),
        )
    }

    /// What the pane draws in a region: the ground and the edge of the
    /// line-number column, four and a half characters wide, then the text.
    pub open spec fn drawn(self, char_size: Vector, coords: Rect) -> Seq<DrawOpView> {
        let gutter = gutter_width(char_size.x as int, 9);
        let edge = clip(coords.x + gutter) as i32;
        seq![
            DrawOpView::Rect {
                start: Vector { x: coords.x, y: coords.y },
                size: Vector { x: gutter, y: coords.h },
                color: ColorView::Link("lineNumberBg"@),
            },
            DrawOpView::Line {
                start: Vector { x: edge, y: coords.y },
                end: Vector { x: edge, y: clip(coords.y + coords.h) as i32 },
                color: ColorView::Link("lineNumberSplit"@),
            },
            DrawOpView::Text { lines: self.rows_drawn(coords.h as int), bounds: coords, mode: TextMode::Lines },
        ]
    }

    /// The breadcrumb of the pane.
    pub open spec fn path(self) -> Seq<char> {
        "File["@ + self.filename + "]"@
    }
}

impl FileBuffer {
    /// A pane for the named file. Its content has yet to arrive.
    pub fn new(filename: String) -> (f: Self)
        ensures
            f@ == FileView::fresh(filename@),
    {
        let f = FileBuffer {
            filename,
            cached: false,
            data: Vec::new(),
            pos: Vector { x: 0, y: 0 },
            scroll: 0,
            mode: FileMode::Normal,
            height: 0,
            char_size: Vector { x: 0, y: 0 },
        };
        assert(f@.data =~= Seq::<Seq<char>>::empty());
        f
    }

    /// Takes the content of the file as the host has read it; `None` where
    /// it could not be read.
    pub fn load(&mut self, content: Option<String>)
        ensures
            final(self)@ == old(self)@.loaded(
                match content {
                    Some(text) => Some(text@),
                    None => None,
                },
            ),
    {
        if self.cached {
            return ;
        }
        let ghost before = self.data.deep_view();
        match content {
            Some(text) => {
                let mut read = split_lines(text.as_str());
                let ghost added = read.deep_view();
                self.data.append(&mut read);
                assert(self.data.deep_view() =~= before + added);
            },
            None => {
                self.data.push(String::new());
                assert(self.data.deep_view() =~= before.push(Seq::empty()));
            },
        }
        if self.data.len() == 0 {
            self.data.push(String::new());
            assert(self.data.deep_view() =~= seq![Seq::<char>::empty()]);
        }
        self.cached = true;
    }

    /// The number of characters in line `y`.
    fn line_len(&self, y: usize) -> (n: usize)
        requires
            y < self.data.len(),
        ensures
            n == self@.data[y as int].len(),
    {
        self.data[y].as_str().unicode_len()
    }

    /// Whether the cursor stands on a line.
    fn on_line(&self) -> (r: bool)
        ensures
            r == self@.on_line(),
    {
        if self.pos.y < 0 || self.pos.x < 0 {
            return false;
        }
        let y = self.pos.y as usize;
        if y >= self.data.len() {
            return false;
        }
        self.pos.x as usize <= self.line_len(y)
    }

    /// One layout pass for a pane of the given size.
    pub fn update(&mut self, size: Vector)
        ensures
            final(self)@ == old(self)@.updated(size),
            old(self)@.data.len() > 0 ==> final(self)@.on_line(),
    {
        let rows = len_i32(self.data.len());
        let x = limit_i32(self.pos.x, 0, sat_sub(size.x, 6));
        let y = limit_i32(self.pos.y, 0, rows - 1);
        let mut scroll = self.scroll;
        if (y as i64) - (scroll as i64) < 1 && scroll > 0 {
            scroll = scroll - 1;
        }
        if (y as i64) - (scroll as i64) > (self.height as i64) - 1 && scroll < rows {
            scroll = scroll + 1;
        }
        let x = if (y as usize) < self.data.len() {
            limit_i32(x, 0, len_i32(self.line_len(y as usize)))
        } else {
            x
        };
        self.pos = Vector { x, y };
        self.scroll = scroll;
    }

    /// Where the cursor is drawn in a pane of the given size. The pane
    /// remembers how many rows fit and how large a character is.
    pub fn get_cursor(&mut self, size: Vector, char_size: Vector) -> (cur: CursorData)
        ensures
            final(self)@ == old(self)@.measured(size, char_size),
            cur == old(self)@.cursor(char_size),
    {
        self.height = sat_div(size.y, char_size.y);
        self.char_size = char_size;
        let mut result = CursorData::Show {
            pos: Vector { x: sat_mul(self.pos.x, char_size.x), y: sat_mul(self.pos.y, char_size.y) },
            size: char_size,
            kind: if self.mode == FileMode::Normal {
                CursorStyle::Block
            } else {
                CursorStyle::Bar
            },
        };
        assert(-0x8000_0000 * 0x8000_0000 <= -(self.scroll as int) * char_size.y <= 0x8000_0000
            * 0x8000_0000) by (nonlinear_arith)
            requires
                -0x8000_0000 <= self.scroll <= 0x8000_0000,
                -0x8000_0000 <= char_size.y <= 0x8000_0000,
        ;
        let up = crate::math::clip_i64(-(self.scroll as i64) * (char_size.y as i64));
        result.offset(Vector { x: sat_mul(5, char_size.x), y: up });
        result
    }

    /// Breaks the line under the cursor in two.
    fn break_line(&mut self)
        ensures
            final(self)@ == old(self)@.broken(),
    {
        if !self.on_line() {
            return ;
        }
        let y = self.pos.y as usize;
        let x = self.pos.x as usize;
        let mut head = chars_of(self.data[y].as_str());
        let tail = head.split_off(x);
        let ghost before = self.data.deep_view();
        self.data[y] = string_of(&head);
        self.data.insert(y + 1, string_of(&tail));
        self.pos = Vector { x: 0, y: sat_add(self.pos.y, 1) };
        assert(self.data.deep_view() =~= before.update(y as int, before[y as int].take(x as int)).insert(
            y + 1,
            before[y as int].skip(x as int),
        ));
    }

    /// Erases the character before the cursor, or joins the line to the
    /// one above.
    fn erase(&mut self)
        ensures
            final(self)@ == old(self)@.erased(),
    {
        let ghost before = self.data.deep_view();
        if self.pos.x > 0 {
            if !self.on_line() {
                return ;
            }
            let y = self.pos.y as usize;
            let x = self.pos.x as usize;
            let mut line = chars_of(self.data[y].as_str());
            line.remove(x - 1);
            self.data[y] = string_of(&line);
            self.pos = Vector { x: self.pos.x - 1, y: self.pos.y };
            assert(self.data.deep_view() =~= before.update(
                y as int,
                before[y as int].remove(x - 1),
            ));
        } else if self.pos.y > 0 && (self.pos.y as usize) < self.data.len() {
            let y = self.pos.y as usize;
            let above = self.line_len(y - 1);
            let cur = self.data.remove(y);
            let mut joined = self.data[y - 1].clone();
            joined.append(cur.as_str());
            self.data[y - 1] = joined;
            self.pos = Vector { x: len_i32(above), y: self.pos.y - 1 };
            assert(self.data.deep_view() =~= before.update(
                y - 1,
                before[y - 1] + before[y as int],
            ).remove(y as int));
        }
    }

    /// Writes a character at the cursor.
    fn type_char(&mut self, c: char)
        ensures
            final(self)@ == old(self)@.typed(c),
    {
        if !self.on_line() {
            return ;
        }
        let ghost before = self.data.deep_view();
        let y = self.pos.y as usize;
        let x = self.pos.x as usize;
        let mut line = chars_of(self.data[y].as_str());
        line.insert(x, c);
        self.data[y] = string_of(&line);
        self.pos = Vector { x: sat_add(self.pos.x, 1), y: self.pos.y };
        assert(self.data.deep_view() =~= before.update(
            y as int,
            before[y as int].insert(x as int, c),
        ));
    }

    /// The text of the file as it is saved.
    pub fn content(&self) -> (s: String)
        ensures
            s@ == content_of(self@.data),
    {
        let mut s = String::new();
        let mut i: usize = 0;
        while i < self.data.len()
            invariant
                i <= self.data.len(),
                s@ == content_of(self@.data.take(i as int)),
            decreases self.data.len() - i,
        {
            s.append(self.data[i].as_str());
            push_char(&mut s, '\n');
            assert(self@.data.take(i + 1).drop_last() =~= self@.data.take(i as int));
            i = i + 1;
        }
        assert(self@.data.take(self.data.len() as int) =~= self@.data);
        s
    }

    /// Handles one event. A save is recorded in `lsp` for the host.
    pub fn event_process(&mut self, ev: Event, lsp: &mut LSPData, coords: Rect)
        ensures
            final(self)@ == old(self)@.after_event(ev@, coords),
            final(lsp)@ == old(lsp)@ + old(self)@.requests(ev@),
    {
        match ev {
            Event::Nav(mods, nav) => {
                if mods.is_none() {
                    match nav {
                        Nav::Down => {
                            self.pos = Vector { x: self.pos.x, y: sat_add(self.pos.y, 1) };
                        },
                        Nav::Up => {
                            self.pos = Vector { x: self.pos.x, y: sat_add(self.pos.y, -1) };
                        },
                        Nav::Left => {
                            self.pos = Vector { x: sat_add(self.pos.x, -1), y: self.pos.y };
                        },
                        Nav::Right => {
                            self.pos = Vector { x: sat_add(self.pos.x, 1), y: self.pos.y };
                        },
                        Nav::Enter => {
                            if self.mode == FileMode::Insert {
                                self.break_line();
                            }
                        },
                        Nav::BackSpace => {
                            if self.mode == FileMode::Insert {
                                self.erase();
                            }
                        },
                        Nav::Escape => {
                            self.mode = FileMode::Normal;
                        },
                    }
                }
            },
            Event::Key(mods, c) => {
                if mods.is_none() {
                    if self.mode == FileMode::Insert {
                        self.type_char(c);
                    } else if c == 'i' {
                        self.mode = FileMode::Insert;
                    }
                }
            },
            Event::Mouse(at, _) => {
                self.pos = Vector {
                    x: sat_sub(sat_div(sat_sub(at.x, coords.x), self.char_size.x), 5),
                    y: sat_add(sat_div(sat_sub(at.y, coords.y), self.char_size.y), self.scroll),
                };
            },
            Event::Save(path) => {
                let file = match path {
                    Some(p) => p,
                    None => self.filename.clone(),
                };
                let content = self.content();
                lsp.push(Request::WriteText { file: file.clone(), content: content.clone() });
                lsp.save_file(file, content);
            },
            _ => {},
        }
    }

    /// Row `k` of the text as it is drawn.
    fn draw_row(&self, k: i32) -> (l: Line)
        ensures
            l@ == self@.row(k as int),
    {
        let mut colors: Vec<Color> = Vec::new();
        if k >= 0 && (k as usize) < self.data.len() {
            let text = &self.data[k as usize];
            let mut number = format_number(k as u64 + 1, 10, 4, ' ');
            number.push(' ');
            let mut chars = string_of(&number);
            chars.append(text.as_str());
            assert(chars@ =~= padded(numeral((k + 1) as nat, 10), 4, ' ') + seq![' ']
                + self@.data[k as int]);
            push_links(&mut colors, "lineNumberFg", 5);
            push_links(&mut colors, "fg", text.as_str().unicode_len());
            Line::Text { chars, colors }
        } else {
            push_links(&mut colors, "lineNumberFg", 1);
            Line::Text { chars: " ".to_string(), colors }
        }
    }

    /// Draws the pane into a region.
    pub fn draw_conts(&self, handle: &mut Handle, coords: Rect)
        ensures
            old(handle).extended_by(final(handle), self@.drawn(old(handle).char_size, coords)),
    {
        let mut rows: Vec<Line> = Vec::new();
        let mut idx: i32 = 0;
        while idx < coords.h
            invariant
                0 <= idx,
                idx <= coords.h || idx == 0,
                rows.deep_view() == self@.rows_drawn(idx as int),
            decreases coords.h - idx,
        {
            let ghost before = rows.deep_view();
            let row = self.draw_row(sat_add(idx, self.scroll));
            rows.push(row);
            assert(rows.deep_view() =~= before.push(row@));
            idx = idx + 1;
        }
        let w = handle.get_char_size().x;
        let width = gutter(w, 9);
        let edge = sat_add(coords.x, width);
        handle.render_rect(
            Vector { x: coords.x, y: coords.y },
            Vector { x: width, y: coords.h },
            Color::link("lineNumberBg"),
        );
        handle.render_line(
            Vector { x: edge, y: coords.y },
            Vector { x: edge, y: sat_add(coords.y, coords.h) },
            Color::link("lineNumberSplit"),
        );
        handle.render_text(rows, coords, TextMode::Lines);
        assert(handle.drawn() =~= old(handle).drawn() + self@.drawn(old(handle).char_size, coords));
    }

    /// Focus cannot move inside a leaf.
    pub fn nav(&mut self, dir: NavDir) -> (handled: bool)
        ensures
            !handled,
            *final(self) == *old(self),
    {
        false
    }

    /// The breadcrumb of the pane.
    pub fn get_path(&self) -> (s: String)
        ensures
            s@ == self@.path(),
    {
        let mut s = "File[".to_string();
        s.append(self.filename.as_str());
        s.append("]");
        s
    }

    /// Closes the pane: the language server is told, and the parent has to
    /// take the pane out.
    pub fn close(&mut self, lsp: &mut LSPData) -> (kind: CloseKind)
        ensures
            kind is This,
            *final(self) == *old(self),
            final(lsp)@ == old(lsp)@.push(RequestView::Closed { file: old(self)@.filename }),
    {
        lsp.close_file(self.filename.clone());
        CloseKind::This
    }
}

} // verus!
