//! Geometry primitives shared by every pane, and the saturating integer
//! arithmetic that layout is computed with.

use vstd::prelude::*;

verus! {

/// A point or an extent on the integer grid of the drawing surface.
#[derive(Debug, Clone, Copy, PartialEq, Eq, Structural)]
pub struct Vector {
    pub x: i32,
    pub y: i32,
}

/// An axis-aligned rectangle: origin and extent.
#[derive(Debug, Clone, Copy, PartialEq, Eq, Structural)]
pub struct Rect {
    pub x: i32,
    pub y: i32,
    pub w: i32,
    pub h: i32,
}

/// A relative sizing rule, resolved against a concrete span at layout time.
///
/// `Percent` counts hundredths of the span; `Chars` and `Pixels` measure
/// from the near edge, `NegChars` and `NegPixels` from the far edge.
#[derive(Debug, Clone, Copy, PartialEq, Eq, Structural)]
pub enum Measurement {
    Percent(u32),
    Chars(usize),
    NegChars(usize),
    Pixels(usize),
    NegPixels(usize),
}

/// `v` brought into the range of `i32`.
pub open spec fn clip(v: int) -> int {
    if v < i32::MIN {
        i32::MIN as int
    } else if v > i32::MAX {
        i32::MAX as int
    } else {
        v
    }
}

/// The quotient of `a` by `b` rounded toward zero; 0 where `b` is 0.
pub open spec fn quot(a: int, b: int) -> int {
    if b == 0 {
        0
    } else if a >= 0 && b > 0 {
        a / b
    } else if a >= 0 {
        -(a / (-b))
    } else if b > 0 {
        -((-a) / b)
    } else {
        (-a) / (-b)
    }
}

/// `v` held to `lo ..= hi`; where the range is empty, `lo` wins.
pub open spec fn limit(v: int, lo: int, hi: int) -> int {
    if v > hi {
        if hi < lo {
            lo
        } else {
            hi
        }
    } else if v < lo {
        lo
    } else {
        v
    }
}

/// The smaller of two integers.
pub open spec fn least(a: int, b: int) -> int {
    if a <= b {
        a
    } else {
        b
    }
}

/// Narrows a 64-bit intermediate result to `i32`, saturating at both ends.
pub fn clip_i64(v: i64) -> (r: i32)
    ensures
        r == clip(v as int),
{
    if v < -2147483648 {
        -2147483648
    } else if v > 2147483647 {
        2147483647
    } else {
        v as i32
    }
}

/// Saturating sum.
pub fn sat_add(a: i32, b: i32) -> (r: i32)
    ensures
        r == clip(a + b),
{
    clip_i64(a as i64 + b as i64)
}

/// Saturating difference.
pub fn sat_sub(a: i32, b: i32) -> (r: i32)
    ensures
        r == clip(a - b),
{
    clip_i64(a as i64 - b as i64)
}

/// Saturating product.
pub fn sat_mul(a: i32, b: i32) -> (r: i32)
    ensures
        r == clip(a * b),
{
    assert(-0x8000_0000 * 0x8000_0000 <= a * b <= 0x8000_0000 * 0x8000_0000) by (nonlinear_arith)
        requires
            -0x8000_0000 <= a <= 0x8000_0000,
            -0x8000_0000 <= b <= 0x8000_0000,
    ;
    clip_i64(a as i64 * b as i64)
}

/// Division that rounds toward zero, gives 0 for a zero divisor and
/// saturates in the one case that leaves the range.
pub fn sat_div(a: i32, b: i32) -> (r: i32)
    ensures
        r == clip(quot(a as int, b as int)),
{
    if b == 0 {
        0
    } else {
        match a.checked_div(b) {
            Some(q) => q,
            None => 2147483647,
        }
    }
}

/// `v` held to `lo ..= hi`; where the range is empty, `lo` wins.
pub fn limit_i32(v: i32, lo: i32, hi: i32) -> (r: i32)
    ensures
        r == limit(v as int, lo as int, hi as int),
{
    if v > hi {
        if hi < lo {
            lo
        } else {
            hi
        }
    } else if v < lo {
        lo
    } else {
        v
    }
}

/// A collection length as a coordinate, saturating at `i32::MAX`.
pub fn len_i32(n: usize) -> (r: i32)
    ensures
        r == clip(n as int),
{
    if n > 2147483647 {
        2147483647
    } else {
        n as i32
    }
}

impl Vector {
    /// Component-wise saturating sum.
    pub open spec fn plus(self, off: Vector) -> Vector {
        Vector { x: clip(self.x + off.x) as i32, y: clip(self.y + off.y) as i32 }
    }

    /// Component-wise saturating sum.
    pub fn shifted(self, off: Vector) -> (r: Vector)
        ensures
            r == self.plus(off),
    {
        Vector { x: sat_add(self.x, off.x), y: sat_add(self.y, off.y) }
    }
}

impl Measurement {
    /// The offset that this rule selects in a span of `max` units, one
    /// character being `char_size` units wide, before it is fitted to `usize`.
    pub open spec fn value(self, max: int, char_size: int) -> int {
        match self {
            Measurement::Percent(pc) => max * pc / 100,
            Measurement::Chars(n) => least(n * char_size, max),
            Measurement::NegChars(n) => max - least(n * char_size, max),
            Measurement::Pixels(n) => least(n as int, max),
            Measurement::NegPixels(n) => max - least(n as int, max),
        }
    }

    /// `value`, resolved for coordinates: negative spans and character sizes
    /// count as 0, and the result saturates at `i32::MAX`.
    pub open spec fn offset(self, span: int, cell: int) -> int {
        clip(self.value(if span < 0 { 0 } else { span }, if cell < 0 { 0 } else { cell }))
    }

    /// Resolves the rule against a span of `max` units. Only a `Percent`
    /// above 100 can exceed `max`; the result then saturates at `usize::MAX`.
    pub fn get_value(&self, max: usize, char_size: usize) -> (r: usize)
        ensures
            r == least(self.value(max as int, char_size as int), usize::MAX as int),
            !(self is Percent) ==> r <= max,
    {
        match self {
            Measurement::Percent(pc) => {
                let pc: u32 = *pc;
                assert(0 <= max * pc <= 0xffff_ffff_ffff_ffff * 0xffff_ffff) by (nonlinear_arith)
                    requires
                        0 <= max <= 0xffff_ffff_ffff_ffff,
                        0 <= pc <= 0xffff_ffff,
                ;
                let scaled: u128 = (max as u128) * (pc as u128) / 100;
                if scaled > usize::MAX as u128 {
                    usize::MAX
                } else {
                    scaled as usize
                }
            },
            Measurement::Chars(n) => {
                match n.checked_mul(char_size) {
                    Some(w) => if w < max {
                        w
                    } else {
                        max
                    },
                    None => max,
                }
            },
            Measurement::NegChars(n) => {
                match n.checked_mul(char_size) {
                    Some(w) => if w < max {
                        max - w
                    } else {
                        0
                    },
                    None => 0,
                }
            },
            Measurement::Pixels(n) => if *n < max {
                *n
            } else {
                max
            },
            Measurement::NegPixels(n) => if *n < max {
                max - *n
            } else {
                0
            },
        }
    }

    /// Resolves the rule for a span and a character size given as
    /// coordinates.
    pub fn resolve(&self, span: i32, cell: i32) -> (r: i32)
        ensures
            r == self.offset(span as int, cell as int),
            0 <= r,
    {
        let max: usize = if span < 0 {
            0
        } else {
            span as usize
        };
        let unit: usize = if cell < 0 {
            0
        } else {
            cell as usize
        };
        let v = self.get_value(max, unit);
        len_i32(v)
    }
}

} // verus!
