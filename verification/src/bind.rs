//! Key bindings: the name under which an input event is bound, and the
//! command that is bound to it.

use crate::event::{Event, EventView, Mods, Nav};
use crate::script::Command;
use crate::strmap::StrMap;
use crate::text::{ascii_upper, push_char, to_ascii_uppercase};
use vstd::prelude::*;
use vstd::string::StringExecFns;

verus! {

/// The text that stands for the modifiers in the name of a key: `C-` for
/// control, `A-` for alt and `S-` for shift, in this order.
pub open spec fn mods_name(mods: Mods) -> Seq<char> {
    (if mods.ctrl {
        "C-"@
    } else {
        Seq::empty()
    }) + (if mods.alt {
        "A-"@
    } else {
        Seq::empty()
    }) + (if mods.shift {
        "S-"@
    } else {
        Seq::empty()
    })
}

/// The name of a key that writes no character.
pub open spec fn nav_name(nav: Nav) -> Seq<char> {
    match nav {
        Nav::Up => "UP"@,
        Nav::Down => "DOWN"@,
        Nav::Left => "LEFT"@,
        Nav::Right => "RIGHT"@,
        Nav::Escape => "ESC"@,
        Nav::Enter => "ENTER"@,
        Nav::BackSpace => "BS"@,
    }
}

/// The name under which an event is bound: the modifiers and the key
/// between angle brackets, a letter in upper case. Only key presses have a
/// name.
pub open spec fn key_name(ev: EventView) -> Option<Seq<char>> {
    match ev {
        EventView::Key(mods, c) => Some("<"@ + mods_name(mods) + seq![ascii_upper(c)] + ">"@),
        EventView::Nav(mods, nav) => Some("<"@ + mods_name(mods) + nav_name(nav) + ">"@),
        _ => None,
    }
}

/// Starts the name of a key: the opening bracket and the modifiers.
fn name_start(mods: &Mods) -> (name: String)
    ensures
        name@ == "<"@ + mods_name(*mods),
{
    let mut name = "<".to_string();
    if mods.ctrl {
        name.append("C-");
    }
    if mods.alt {
        name.append("A-");
    }
    if mods.shift {
        name.append("S-");
    }
    name
}

/// The name under which an event is bound.
pub fn event_name(ev: &Event) -> (r: Option<String>)
    ensures
        match r {
            Some(name) => key_name(ev@) == Some(name@),
            None => key_name(ev@) is None,
        },
{
    match ev {
        Event::Key(mods, c) => {
            let mut name = name_start(mods);
            push_char(&mut name, to_ascii_uppercase(*c));
            name.append(">");
            Some(name)
        },
        Event::Nav(mods, nav) => {
            let mut name = name_start(mods);
            match nav {
                Nav::Up => name.append("UP"),
                Nav::Down => name.append("DOWN"),
                Nav::Left => name.append("LEFT"),
                Nav::Right => name.append("RIGHT"),
                Nav::Escape => name.append("ESC"),
                Nav::Enter => name.append("ENTER"),
                Nav::BackSpace => name.append("BS"),
            }
            name.append(">");
            Some(name)
        },
        _ => None,
    }
}

/// The command that is bound to an event, if any.
pub fn check(map: &StrMap<Command>, ev: &Event) -> (r: Option<Command>)
    ensures
        match r {
            Some(cmd) => key_name(ev@) matches Some(name) && map@.contains_key(name) && cmd
                == map@[name],
            None => key_name(ev@) matches Some(name) ==> !map@.contains_key(name),
        },
{
    match event_name(ev) {
        Some(name) => match map.get(&name) {
            Some(cmd) => Some(cmd.duplicate()),
            None => None,
        },
        None => None,
    }
}

} // verus!
