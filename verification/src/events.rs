//! The value types that flow through the tree during input dispatch: events
//! travel down, actions travel up.

use vstd::prelude::*;

use crate::geometry::Point;

verus! {

/// An input value delivered top-down. Pointer events carry a position in the
/// coordinate space of the node receiving them; each offsetting node
/// translates that position once, at its wrapper, as the event crosses it.
#[derive(Clone, Copy, PartialEq, Eq, Structural, Debug)]
pub enum Event {
    PointerDown(Point),
    PointerUp(Point),
    Key(u32),
}

/// An upward-flowing semantic signal produced by event handling; at most one
/// per dispatch, and none is the default.
#[derive(Clone, Copy, PartialEq, Eq, Structural, Debug)]
pub enum Action {
    /// A widget was activated by a pointer press at the given local position.
    Activated(Point),
    /// A widget consumed a key press.
    Typed(u32),
}

impl Event {
    /// This event expressed in the coordinate space of a child placed at
    /// `origin`: pointer positions move by `-origin`, key events are
    /// untouched.
    pub open spec fn spec_translated(self, origin: Point) -> Event {
        match self {
            Event::PointerDown(p) => Event::PointerDown(p.spec_relative_to(origin)),
            Event::PointerUp(p) => Event::PointerUp(p.spec_relative_to(origin)),
            Event::Key(k) => Event::Key(k),
        }
    }

    /// Translate this event into the coordinate space of a child placed at
    /// `origin`.
    pub fn translated(&self, origin: Point) -> (r: Event)
        ensures
            r == self.spec_translated(origin),
    {
        match self {
            Event::PointerDown(p) => Event::PointerDown(p.relative_to(origin)),
            Event::PointerUp(p) => Event::PointerUp(p.relative_to(origin)),
            Event::Key(k) => Event::Key(*k),
        }
    }
}

} // verus!
