//! What a window backend has to work out from the keys it is told: the
//! character that a key writes while shift is held.

use crate::event::{Event, Mods};
use vstd::prelude::*;

verus! {

/// What `char::is_numeric` returns for a character.
pub uninterp spec fn numeric(c: char) -> bool;

/// What `char::to_uppercase` gives for a character: the characters of its
/// upper-case form.
pub uninterp spec fn uppercase(c: char) -> Seq<char>;

/// `char::is_numeric`: whether the character is one of Unicode's numbers,
/// a function of the character alone.
#[verifier::external_body]
fn is_numeric(c: char) -> (r: bool)
    ensures
        r == numeric(c),
{
    c.is_numeric()
}

/// `char::to_uppercase`: the characters of the upper-case form that
/// Unicode's tables give, a function of the character alone.
#[verifier::external_body]
fn to_uppercase(c: char) -> (r: Vec<char>)
    ensures
        r@ == uppercase(c),
{
    c.to_uppercase().collect()
}

/// The first character of a text, if it has one.
pub open spec fn first(s: Seq<char>) -> Option<char> {
    if s.len() > 0 {
        Some(s[0])
    } else {
        None
    }
}

/// The symbol that the digit key `d` writes with shift, by the row
/// `!@#$%^&*()` counted from the key `0`.
pub open spec fn digit_symbol(d: int) -> char {
    if d == 0 {
        '!'
    } else if d == 1 {
        '@'
    } else if d == 2 {
        '#'
    } else if d == 3 {
        '$'
    } else if d == 4 {
        '%'
    } else if d == 5 {
        '^'
    } else if d == 6 {
        '&'
    } else if d == 7 {
        '*'
    } else if d == 8 {
        '('
    } else {
        ')'
    }
}

/// The character that a key writes while shift is held, given the
/// character that it writes alone and what Unicode says of that character:
/// brackets become braces, the period and the comma become angle brackets,
/// the semicolon a colon and the apostrophe a quotation mark; a digit
/// becomes the symbol of its key; a number that is no digit writes
/// nothing else; every other character is written as the first character
/// of its upper-case form, if that form has one.
pub open spec fn shifted(c: char, is_number: bool, upper: Option<char>) -> Option<char> {
    if c == '[' {
        Some('{')
    } else if c == ']' {
        Some('}')
    } else if c == '.' {
        Some('>')
    } else if c == ',' {
        Some('<')
    } else if c == ';' {
        Some(':')
    } else if c == '\'' {
        Some('"')
    } else if is_number {
        if '0' <= c <= '9' {
            Some(digit_symbol(c as int - 48))
        } else {
            None
        }
    } else {
        upper
    }
}

/// The character that a key writes while shift is held, given what
/// Unicode says of the character that it writes alone.
pub fn shift_char(c: char, is_number: bool, upper: Option<char>) -> (r: Option<char>)
    ensures
        r == shifted(c, is_number, upper),
{
    if c == '[' {
        Some('{')
    } else if c == ']' {
        Some('}')
    } else if c == '.' {
        Some('>')
    } else if c == ',' {
        Some('<')
    } else if c == ';' {
        Some(':')
    } else if c == '\'' {
        Some('"')
    } else if is_number {
        let n: u32 = c as u32;
        if 48 <= n && n <= 57 {
            let d: u32 = n - 48;
            Some(
                if d == 0 {
                    '!'
                } else if d == 1 {
                    '@'
                } else if d == 2 {
                    '#'
                } else if d == 3 {
                    '$'
                } else if d == 4 {
                    '%'
                } else if d == 5 {
                    '^'
                } else if d == 6 {
                    '&'
                } else if d == 7 {
                    '*'
                } else if d == 8 {
                    '('
                } else {
                    ')'
                },
            )
        } else {
            None
        }
    } else {
        upper
    }
}

/// The key press that a named key stands for: with shift held, the
/// character that the key writes with shift, and shift counts as used up;
/// where shift changes nothing, and without shift, the key as it is.
pub open spec fn key_press(c: char, mods: Mods) -> (Mods, char) {
    if mods.shift {
        match shifted(c, numeric(c), first(uppercase(c))) {
            Some(written) => (Mods { shift: false, ..mods }, written),
            None => (mods, c),
        }
    } else {
        (mods, c)
    }
}

/// The event for a key that the window names by the character it writes
/// alone.
pub fn key_event(c: char, mods: Mods) -> (ev: Event)
    ensures
        ev == Event::Key(key_press(c, mods).0, key_press(c, mods).1),
{
    if mods.shift {
        let upper = to_uppercase(c);
        let first_upper = if upper.len() > 0 {
            Some(upper[0])
        } else {
            None
        };
        match shift_char(c, is_numeric(c), first_upper) {
            Some(written) => Event::Key(Mods { ctrl: mods.ctrl, alt: mods.alt, shift: false }, written),
            None => Event::Key(mods, c),
        }
    } else {
        Event::Key(mods, c)
    }
}

/// Whether an event is among those of a frame.
pub open spec fn has_event(events: Seq<Event>, ev: Event) -> bool {
    exists|i: int| 0 <= i < events.len() && (#[trigger] events[i])@ == ev@
}

/// Adds an event to those of a frame, unless it is among them.
pub fn push_once(events: &mut Vec<Event>, ev: Event)
    ensures
        final(events)@ == if has_event(old(events)@, ev) {
            old(events)@
        } else {
            old(events)@.push(ev)
        },
{
    let mut i: usize = 0;
    while i < events.len()
        invariant
            i <= events.len(),
            events@ == old(events)@,
            forall|k: int| 0 <= k < i ==> (#[trigger] old(events)@[k])@ != ev@,
        decreases events.len() - i,
    {
        if same_event(&events[i], &ev) {
            return ;
        }
        i = i + 1;
    }
    events.push(ev);
}

/// Whether two events are the same, texts compared by their characters.
pub fn same_event(a: &Event, b: &Event) -> (r: bool)
    ensures
        r == (a@ == b@),
{
    match (a, b) {
        (Event::Key(m1, c1), Event::Key(m2, c2)) => *m1 == *m2 && *c1 == *c2,
        (Event::Nav(m1, n1), Event::Nav(m2, n2)) => *m1 == *m2 && *n1 == *n2,
        (Event::Save(p1), Event::Save(p2)) => match (p1, p2) {
            (Some(x), Some(y)) => *x == *y,
            (None, None) => true,
            _ => false,
        },
        (Event::Mouse(v1, b1), Event::Mouse(v2, b2)) => *v1 == *v2 && *b1 == *b2,
        (Event::Quit, Event::Quit) => true,
        _ => false,
    }
}

} // verus!
