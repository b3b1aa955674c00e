//! The log pane: the captured records, newest first.

use crate::buffer::file::{gutter, gutter_width};
use crate::buffer::{links, push_links, CloseKind, NavDir};
use crate::drawer::{CursorData, DrawOpView, Handle, Line, LineView, TextMode};
use crate::event::Event;
use crate::highlight::{Color, ColorView};
use crate::logging::{LogLevel, LogLine, LogLineView};
use crate::math::{clip, sat_add, Rect, Vector};
use crate::text::{chars_of, pad_left, padded, string_of};
use vstd::prelude::*;

verus! {

/// A pane that shows the log.
#[derive(Debug, PartialEq, Eq, Clone, Copy, Structural)]
pub struct LogViewBuffer {}

/// The name of the color in which records of a level are shown.
pub open spec fn level_color(level: LogLevel) -> Seq<char> {
    match level {
        LogLevel::Error => "log_error"@,
        LogLevel::Warn => "log_warn"@,
        LogLevel::Info => "log_info"@,
        _ => "fg"@,
    }
}

/// The text of a record: its source, pushed right in fifteen columns, a
/// blank and the message.
pub open spec fn record_text(line: LogLineView) -> Seq<char> {
    padded(line.target, 15, ' ') + seq![' '] + line.text
}

/// The line for a record. The first sixteen characters are in the color of
/// line numbers, the rest in the color of the record's level.
pub open spec fn log_row(line: LogLineView) -> LineView {
    let text = record_text(line);
    let head: nat = if text.len() < 16 {
        text.len()
    } else {
        16
    };
    LineView::Text {
        chars: text,
        colors: links("lineNumberFg"@, head) + links(
            level_color(line.level),
            (text.len() - head) as nat,
        ),
    }
}

/// One line for each record, the newest first.
pub open spec fn log_rows(log: Seq<LogLineView>) -> Seq<LineView> {
    Seq::new(log.len(), |i: int| log_row(log[log.len() - 1 - i]))
}

/// What the log pane draws in a region: the ground and the edge of the
/// source column, fifteen and a half characters wide, then the records.
pub open spec fn log_drawn(log: Seq<LogLineView>, char_size: Vector, coords: Rect) -> Seq<
    DrawOpView,
> {
    let gutter = gutter_width(char_size.x as int, 31);
    let edge = clip(coords.x + gutter) as i32;
    seq![
        DrawOpView::Rect {
            start: Vector { x: coords.x, y: coords.y },
            size: Vector { x: gutter, y: coords.h },
            color: ColorView::Link("lineNumberBg"@),
        },
        DrawOpView::Line {
            start: Vector { x: edge, y: coords.y },
            end: Vector { x: edge, y: clip(coords.y + coords.h) as i32 },
            color: ColorView::Link("lineNumberSplit"@),
        },
        DrawOpView::Text { lines: log_rows(log), bounds: coords, mode: TextMode::Lines },
    ]
}

/// The line for a record.
pub fn draw_record(line: &LogLine) -> (l: Line)
    ensures
        l@ == log_row(line@),
{
    let target = chars_of(line.target.as_str());
    let mut text = pad_left(&target, 15, ' ');
    text.push(' ');
    let message = chars_of(line.text.as_str());
    let mut i: usize = 0;
    let ghost head = text@;
    while i < message.len()
        invariant
            i <= message.len(),
            text@ == head + message@.take(i as int),
        decreases message.len() - i,
    {
        text.push(message[i]);
        i = i + 1;
    }
    assert(text@ =~= record_text(line@));
    let n = text.len();
    let first: usize = if n < 16 {
        n
    } else {
        16
    };
    let mut colors: Vec<Color> = Vec::new();
    push_links(&mut colors, "lineNumberFg", first);
    match line.level {
        LogLevel::Error => push_links(&mut colors, "log_error", n - first),
        LogLevel::Warn => push_links(&mut colors, "log_warn", n - first),
        LogLevel::Info => push_links(&mut colors, "log_info", n - first),
        _ => push_links(&mut colors, "fg", n - first),
    }
    Line::Text { chars: string_of(&text), colors }
}

impl LogViewBuffer {
    /// A layout pass changes nothing.
    pub fn update(&mut self, size: Vector) {
    }

    /// Draws the pane into a region.
    pub fn draw_conts(&self, handle: &mut Handle, coords: Rect)
        ensures
            old(handle).extended_by(
                final(handle),
                log_drawn(old(handle).log_view(), old(handle).char_size, coords),
            ),
    {
        let mut rows: Vec<Line> = Vec::new();
        let log = handle.log;
        let n = log.len();
        let mut i: usize = 0;
        let ghost all = log_rows(log.deep_view());
        while i < n
            invariant
                i <= n,
                n == log.len(),
                all == log_rows(log.deep_view()),
                rows.deep_view() == all.take(i as int),
            decreases n - i,
        {
            let ghost before = rows.deep_view();
            let row = draw_record(&log[n - 1 - i]);
            rows.push(row);
            assert(rows.deep_view() =~= before.push(row@));
            i = i + 1;
        }
        assert(all.take(n as int) =~= all);
        let w = handle.get_char_size().x;
        let width = gutter(w, 31);
        let edge = sat_add(coords.x, width);
        handle.render_rect(
            Vector { x: coords.x, y: coords.y },
            Vector { x: width, y: coords.h },
            Color::link("lineNumberBg"),
        );
        handle.render_line(
            Vector { x: edge, y: coords.y },
            Vector { x: edge, y: sat_add(coords.y, coords.h) },
            Color::link("lineNumberSplit"),
        );
        handle.render_text(rows, coords, TextMode::Lines);
        assert(handle.drawn() =~= old(handle).drawn() + log_drawn(
            old(handle).log_view(),
            old(handle).char_size,
            coords,
        ));
    }

    /// The log has no cursor.
    pub fn get_cursor(&mut self, size: Vector, char_size: Vector) -> (cur: CursorData)
        ensures
            cur is Hidden,
    {
        CursorData::Hidden
    }

    /// Events pass without effect.
    pub fn event_process(&mut self, ev: Event, coords: Rect) {
    }

    /// Focus cannot move inside a leaf.
    pub fn nav(&mut self, dir: NavDir) -> (handled: bool)
        ensures
            !handled,
    {
        false
    }

    /// The breadcrumb of the pane.
    pub fn get_path(&self) -> (s: String)
        ensures
            s@ == "LogView"@,
    {
        "LogView".to_string()
    }

    /// Closing a leaf leaves it to the parent to take the pane out.
    pub fn close(&mut self) -> (kind: CloseKind)
        ensures
            kind is This,
    {
        CloseKind::This
    }
}

} // verus!
