//! Input events as the host hands them to the pane tree.

use crate::math::Vector;
use vstd::prelude::*;

verus! {

/// The modifier keys held with a key press.
#[derive(PartialEq, Eq, Debug, Clone, Copy, Structural)]
pub struct Mods {
    pub ctrl: bool,
    pub alt: bool,
    pub shift: bool,
}

/// The keys that do not write a character.
#[derive(PartialEq, Eq, Debug, Clone, Copy, Structural)]
pub enum Nav {
    Up,
    Down,
    Left,
    Right,
    Escape,
    Enter,
    BackSpace,
}

/// One input event. `Save` may name another file to write to; `Mouse`
/// holds the pointer's position and the button.
#[derive(PartialEq, Debug)]
pub enum Event {
    Key(Mods, char),
    Nav(Mods, Nav),
    Save(Option<String>),
    Mouse(Vector, i32),
    Quit,
}

/// An event with its text as characters.
pub enum EventView {
    Key(Mods, char),
    Nav(Mods, Nav),
    Save(Option<Seq<char>>),
    Mouse(Vector, i32),
    Quit,
}

impl View for Event {
    type V = EventView;

    open spec fn view(&self) -> EventView {
        match self {
            Event::Key(mods, c) => EventView::Key(*mods, *c),
            Event::Nav(mods, nav) => EventView::Nav(*mods, *nav),
            Event::Save(path) => EventView::Save(
                match path {
                    Some(p) => Some(p@),
                    None => None,
                },
            ),
            Event::Mouse(at, button) => EventView::Mouse(*at, *button),
            Event::Quit => EventView::Quit,
        }
    }
}

impl Mods {
    /// No modifier held.
    pub open spec fn none() -> Mods {
        Mods { ctrl: false, alt: false, shift: false }
    }

    /// Control alone.
    pub open spec fn only_ctrl() -> Mods {
        Mods { ctrl: true, alt: false, shift: false }
    }

    /// Whether no modifier is held.
    pub fn is_none(&self) -> (r: bool)
        ensures
            r == (*self == Mods::none()),
    {
        !self.ctrl && !self.alt && !self.shift
    }

    /// Whether control is held and nothing else.
    pub fn is_only_ctrl(&self) -> (r: bool)
        ensures
            r == (*self == Mods::only_ctrl()),
    {
        self.ctrl && !self.alt && !self.shift
    }
}

} // verus!
