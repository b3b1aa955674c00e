//! Layout for a terminal: lines cut to the width of their region and
//! divided into runs of one color, the cells of a straight line, the
//! parts of the status line, and the events that key presses stand for.

use crate::drawer::{Line, LineView, StatusLine, StatusLineView};
use crate::event::{Event, EventView, Mods, Nav};
use crate::highlight::{get_color, resolved, Color};
use crate::math::{clip, sat_add, Rect, Vector};
use crate::strmap::StrMap;
use crate::text::{chars_of, string_of};
use vstd::prelude::*;

verus! {

/// A run of characters in one color, and the cell where it starts. Without
/// a color the terminal's white is meant.
#[derive(Debug, PartialEq)]
pub struct Span {
    pub pos: Vector,
    pub color: Option<(u8, u8, u8)>,
    pub text: String,
}

/// A run of characters in one color token, and the column where it starts.
pub struct Run {
    pub x: int,
    pub color: Color,
    pub text: Seq<char>,
}

/// A key as the terminal reports it.
#[derive(Debug, PartialEq, Eq, Clone, Copy, Structural)]
pub enum Key {
    Char(char),
    Up,
    Down,
    Left,
    Right,
    Esc,
    Enter,
    Backspace,
    Other,
}

/// The first `max_chars` characters of a text.
pub open spec fn truncated(s: Seq<char>, max_chars: nat) -> Seq<char> {
    if s.len() <= max_chars {
        s
    } else {
        s.take(max_chars as int)
    }
}

/// A text as it fits into `width` columns: where it is too long, its last
/// column that shows is a `>`.
pub open spec fn fitted(s: Seq<char>, width: nat) -> Seq<char> {
    if s.len() <= width {
        s
    } else if width == 0 {
        seq!['>']
    } else {
        s.take(width - 1).push('>')
    }
}

/// The first `max_chars` characters of a text.
pub fn truncate(s: &str, max_chars: usize) -> (r: String)
    ensures
        r@ == truncated(s@, max_chars as nat),
{
    let text = chars_of(s);
    let mut out: Vec<char> = Vec::new();
    let mut i: usize = 0;
    while i < text.len() && i < max_chars
        invariant
            i <= text.len(),
            i <= max_chars,
            out@ == text@.take(i as int),
        decreases text.len() - i,
    {
        out.push(text[i]);
        i = i + 1;
    }
    string_of(&out)
}

/// A text cut to `width` columns and marked where it was cut.
pub fn fit(s: &str, width: usize) -> (r: Vec<char>)
    ensures
        r@ == fitted(s@, width as nat),
{
    let text = chars_of(s);
    if text.len() <= width {
        return text;
    }
    let mut out: Vec<char> = Vec::new();
    let mut i: usize = 0;
    while i + 1 < width
        invariant
            i < width || width == 0,
            width < text.len(),
            i == 0 || i + 1 <= width,
            out@ == text@.take(i as int),
        decreases width - i,
    {
        out.push(text[i]);
        i = i + 1;
    }
    out.push('>');
    out
}

/// The color of column `i`: its token, or that of the run before where
/// the tokens have run out.
pub open spec fn color_at(colors: Seq<Color>, i: int, last: Color) -> Color {
    if 0 <= i < colors.len() {
        colors[i]
    } else {
        last
    }
}

/// The state of the division into runs after `n` characters: the runs
/// that are complete, and the color, the text and the first column of the
/// run that is being read. The first run starts empty, in the first of the
/// sixteen base colors.
pub open spec fn runs_scan(chars: Seq<char>, colors: Seq<Color>, n: int) -> (
    Seq<Run>,
    Color,
    Seq<char>,
    int,
)
    decreases n,
{
    if n <= 0 {
        (Seq::empty(), Color::Base16(0), Seq::empty(), 0)
    } else {
        let (done, last, text, x) = runs_scan(chars, colors, n - 1);
        let color = color_at(colors, n - 1, last);
        if color@ != last@ {
            (done.push(Run { x, color: last, text }), color, seq![chars[n - 1]], x + text.len())
        } else {
            (done, last, text.push(chars[n - 1]), x)
        }
    }
}

/// A line divided into runs of one color each.
pub open spec fn runs(chars: Seq<char>, colors: Seq<Color>) -> Seq<Run> {
    let (done, last, text, x) = runs_scan(chars, colors, chars.len() as int);
    done.push(Run { x, color: last, text })
}

/// The red, green and blue that a color token shows as, resolved through
/// the color table; none where it does not resolve to such a color.
pub open spec fn shown(table: StrMap<Color>, color: Color) -> Option<(u8, u8, u8)> {
    match resolved(table@, color, table.entries().len()) {
        Some(Color::Hex { r, g, b }) => Some((r, g, b)),
        _ => None,
    }
}

/// Whether a span is a run, placed in a row that starts at `origin`.
pub open spec fn span_of(span: Span, run: Run, table: StrMap<Color>, origin: Vector) -> bool {
    &&& span.pos == Vector { x: clip(origin.x + run.x) as i32, y: origin.y }
    &&& span.color == shown(table, run.color)
    &&& span.text@ == run.text
}

/// The red, green and blue that a color token shows as.
pub fn show(table: &StrMap<Color>, color: &Color) -> (r: Option<(u8, u8, u8)>)
    ensures
        r == shown(*table, *color),
{
    match get_color(table, color.clone()) {
        Some(Color::Hex { r, g, b }) => Some((r, g, b)),
        _ => None,
    }
}

/// Divides a line of text into runs of one color each and places them in
/// a row that starts at `origin`.
pub fn layout_runs(table: &StrMap<Color>, chars: &Vec<char>, colors: &Vec<Color>, origin: Vector) -> (r:
    Vec<Span>)
    ensures
        r.len() == runs(chars@, colors@).len(),
        forall|i: int|
            0 <= i < r.len() ==> span_of(#[trigger] r[i], runs(chars@, colors@)[i], *table, origin),
{
    let mut done: Vec<Span> = Vec::new();
    let mut last: Color = Color::Base16(0);
    let mut text: Vec<char> = Vec::new();
    let mut x: i32 = origin.x;
    let mut col: u64 = 0;
    let mut i: usize = 0;
    while i < chars.len()
        invariant
            i <= chars.len(),
            done.len() == runs_scan(chars@, colors@, i as int).0.len(),
            forall|k: int|
                0 <= k < done.len() ==> span_of(
                    #[trigger] done[k],
                    runs_scan(chars@, colors@, i as int).0[k],
                    *table,
                    origin,
                ),
            last@ == runs_scan(chars@, colors@, i as int).1@,
            shown(*table, last) == shown(*table, runs_scan(chars@, colors@, i as int).1),
            text@ == runs_scan(chars@, colors@, i as int).2,
            col == runs_scan(chars@, colors@, i as int).3,
            x == clip(origin.x + col),
            col + text.len() == i,
        decreases chars.len() - i,
    {
        let differs = i < colors.len() && !colors[i].same(&last);
        if differs {
            let span = Span { pos: Vector { x, y: origin.y }, color: show(table, &last), text: string_of(&text) };
            col = col + text.len() as u64;
            x = if col > 0x1_0000_0000 {
                i32::MAX
            } else {
                crate::math::clip_i64(origin.x as i64 + col as i64)
            };
            done.push(span);
            last = colors[i].clone();
            text = Vec::new();
            text.push(chars[i]);
        } else {
            text.push(chars[i]);
        }
        i = i + 1;
    }
    let span = Span { pos: Vector { x, y: origin.y }, color: show(table, &last), text: string_of(&text) };
    done.push(span);
    done
}

/// What a text line shows in a region `width` wide: its text cut to the
/// width. An image shows nothing.
pub open spec fn line_text(line: LineView, width: int) -> Seq<char> {
    match line {
        LineView::Text { chars, colors } => if width < 0 {
            chars
        } else {
            fitted(chars, width as nat)
        },
        LineView::Image { path, height } => Seq::empty(),
    }
}

/// The colors of a line; an image has none.
pub open spec fn line_colors(line: Line) -> Seq<Color> {
    match line {
        Line::Text { chars, colors } => colors@,
        Line::Image { path, height } => Seq::empty(),
    }
}

/// The number of rows that a block of lines fills in a region: one for
/// each line, and no more than the region is high and one.
pub open spec fn rows_shown(lines: int, h: int) -> int {
    if h < 0 {
        0
    } else if lines <= h + 1 {
        lines
    } else {
        h + 1
    }
}

/// Places one line in the row at `origin`.
pub fn layout_line(table: &StrMap<Color>, line: &Line, origin: Vector, width: i32) -> (r: Vec<Span>)
    ensures
        r.len() == runs(line_text(line@, width as int), line_colors(*line)).len(),
        forall|i: int|
            0 <= i < r.len() ==> span_of(
                #[trigger] r[i],
                runs(line_text(line@, width as int), line_colors(*line))[i],
                *table,
                origin,
            ),
{
    match line {
        Line::Text { chars, colors } => {
            let text = if width < 0 {
                chars_of(chars.as_str())
            } else {
                fit(chars.as_str(), width as usize)
            };
            layout_runs(table, &text, colors, origin)
        },
        Line::Image { path, height } => {
            let text: Vec<char> = Vec::new();
            let colors: Vec<Color> = Vec::new();
            layout_runs(table, &text, &colors, origin)
        },
    }
}

/// Places a block of lines in a region, one row for each line from the
/// top, as far as the region goes. The result holds the spans row by row.
pub fn layout_text(table: &StrMap<Color>, lines: &Vec<Line>, bounds: Rect) -> (r: Vec<Vec<Span>>)
    ensures
        r.len() == rows_shown(lines.len() as int, bounds.h as int),
        forall|k: int, i: int|
            0 <= k < r.len() && 0 <= i < r[k].len() ==> span_of(
                #[trigger] r[k][i],
                runs(line_text(lines[k]@, bounds.w as int), line_colors(lines[k]))[i],
                *table,
                Vector { x: bounds.x, y: clip(bounds.y + k) as i32 },
            ),
        forall|k: int|
            0 <= k < r.len() ==> (#[trigger] r[k]).len() == runs(
                line_text(lines[k]@, bounds.w as int),
                line_colors(lines[k]),
            ).len(),
{
    let mut rows: Vec<Vec<Span>> = Vec::new();
    let mut k: usize = 0;
    let mut y: i32 = bounds.y;
    while k < lines.len() && bounds.h >= 0 && k <= bounds.h as usize
        invariant
            k <= lines.len(),
            rows.len() == k,
            k == rows_shown(k as int, bounds.h as int) || (k == 0 && bounds.h < 0),
            y == clip(bounds.y + k),
            forall|j: int, i: int|
                0 <= j < rows.len() && 0 <= i < rows[j].len() ==> span_of(
                    #[trigger] rows[j][i],
                    runs(line_text(lines[j]@, bounds.w as int), line_colors(lines[j]))[i],
                    *table,
                    Vector { x: bounds.x, y: clip(bounds.y + j) as i32 },
                ),
            forall|j: int|
                0 <= j < rows.len() ==> (#[trigger] rows[j]).len() == runs(
                    line_text(lines[j]@, bounds.w as int),
                    line_colors(lines[j]),
                ).len(),
        decreases lines.len() - k,
    {
        let row = layout_line(table, &lines[k], Vector { x: bounds.x, y }, bounds.w);
        rows.push(row);
        y = sat_add(y, 1);
        k = k + 1;
    }
    rows
}

/// The unit step that leads from `start` toward `end`: along the row
/// where the columns differ, else along the column.
pub open spec fn line_step(start: Vector, end: Vector) -> Vector {
    if start.x < end.x {
        Vector { x: 1, y: 0 }
    } else if start.x > end.x {
        Vector { x: -1i32, y: 0 }
    } else if start.y < end.y {
        Vector { x: 0, y: 1 }
    } else if start.y > end.y {
        Vector { x: 0, y: -1i32 }
    } else {
        Vector { x: 0, y: 0 }
    }
}

/// The number of cells that a line from `start` toward `end` fills: `end`
/// itself is left out.
pub open spec fn line_cells(start: Vector, end: Vector) -> int {
    if start.x < end.x {
        end.x - start.x
    } else if start.x > end.x {
        start.x - end.x
    } else if start.y < end.y {
        end.y - start.y
    } else {
        start.y - end.y
    }
}

/// The cells of a straight line: the unit step from each to the next, and
/// how many there are, counted from `start`.
pub fn line_run(start: Vector, end: Vector) -> (r: (Vector, u32))
    ensures
        r.0 == line_step(start, end),
        r.1 == line_cells(start, end),
{
    if start.x < end.x {
        (Vector { x: 1, y: 0 }, (end.x as i64 - start.x as i64) as u32)
    } else if start.x > end.x {
        (Vector { x: -1, y: 0 }, (start.x as i64 - end.x as i64) as u32)
    } else if start.y < end.y {
        (Vector { x: 0, y: 1 }, (end.y as i64 - start.y as i64) as u32)
    } else if start.y > end.y {
        (Vector { x: 0, y: -1 }, (start.y as i64 - end.y as i64) as u32)
    } else {
        (Vector { x: 0, y: 0 }, 0)
    }
}

/// The last `n` characters of a text.
pub open spec fn tail(s: Seq<char>, n: nat) -> Seq<char> {
    if s.len() <= n {
        s
    } else {
        s.skip(s.len() - n)
    }
}

/// The status line in `total` columns: the left text cut to the width,
/// the end of the right text in what is left, and the blanks between
/// them.
pub open spec fn status_parts(st: StatusLineView, total: nat) -> (Seq<char>, nat, Seq<char>) {
    let left = truncated(st.left, total);
    let right = tail(st.right, (total - left.len()) as nat);
    (left, (total - left.len() - right.len()) as nat, right)
}

/// Lays the status line out in `total` columns.
pub fn layout_status(st: &StatusLine, total: usize) -> (r: (String, usize, String))
    ensures
        (r.0@, r.1 as nat, r.2@) == status_parts(st@, total as nat),
{
    let left = chars_of(truncate(st.left.as_str(), total).as_str());
    let room: usize = total - left.len();
    let all = chars_of(st.right.as_str());
    let from: usize = if all.len() <= room {
        0
    } else {
        all.len() - room
    };
    let mut right: Vec<char> = Vec::new();
    let mut i: usize = from;
    while i < all.len()
        invariant
            from <= i <= all.len(),
            right@ == all@.subrange(from as int, i as int),
        decreases all.len() - i,
    {
        right.push(all[i]);
        i = i + 1;
    }
    let gap: usize = room - right.len();
    (string_of(&left), gap, string_of(&right))
}

/// The event that a key press stands for. Control and `c` leaves the
/// editor; a colon counts as typed with shift; keys that the editor does
/// not know stand for nothing.
pub open spec fn key_event_of(key: Key, mods: Mods) -> Option<EventView> {
    match key {
        Key::Char(c) => if c == 'c' && mods.ctrl {
            Some(EventView::Quit)
        } else if c == ':' {
            Some(EventView::Key(Mods { shift: true, ..mods }, c))
        } else {
            Some(EventView::Key(mods, c))
        },
        Key::Up => Some(EventView::Nav(mods, Nav::Up)),
        Key::Down => Some(EventView::Nav(mods, Nav::Down)),
        Key::Left => Some(EventView::Nav(mods, Nav::Left)),
        Key::Right => Some(EventView::Nav(mods, Nav::Right)),
        Key::Esc => Some(EventView::Nav(mods, Nav::Escape)),
        Key::Enter => Some(EventView::Nav(mods, Nav::Enter)),
        Key::Backspace => Some(EventView::Nav(mods, Nav::BackSpace)),
        Key::Other => None,
    }
}

/// The event that a key press stands for.
pub fn key_event(key: Key, mods: Mods) -> (r: Option<Event>)
    ensures
        match r {
            Some(ev) => key_event_of(key, mods) == Some(ev@),
            None => key_event_of(key, mods) is None,
        },
{
    match key {
        Key::Char(c) => {
            if c == 'c' && mods.ctrl {
                Some(Event::Quit)
            } else if c == ':' {
                Some(Event::Key(Mods { ctrl: mods.ctrl, alt: mods.alt, shift: true }, c))
            } else {
                Some(Event::Key(mods, c))
            }
        },
        Key::Up => Some(Event::Nav(mods, Nav::Up)),
        Key::Down => Some(Event::Nav(mods, Nav::Down)),
        Key::Left => Some(Event::Nav(mods, Nav::Left)),
        Key::Right => Some(Event::Nav(mods, Nav::Right)),
        Key::Esc => Some(Event::Nav(mods, Nav::Escape)),
        Key::Enter => Some(Event::Nav(mods, Nav::Enter)),
        Key::Backspace => Some(Event::Nav(mods, Nav::BackSpace)),
        Key::Other => None,
    }
}

} // verus!
