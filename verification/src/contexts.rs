//! Phase-scoped context objects threaded through every widget call, and the
//! shared read-only environment.
//!
//! Each traversal phase hands its own capability bundle down the tree: a
//! `LayoutCtx` during size negotiation, a `PaintCtx` during painting and an
//! `EventCtx` during input dispatch. The `Env` rides along with all three and
//! is never mutated during a pass.

use vstd::prelude::*;

use crate::geometry::Point;
use crate::geometry::Rect;

verus! {

/// The value bound to `key`, scanning entries front to back from index `i`;
/// the first binding wins.
pub open spec fn lookup_from(entries: Seq<(u64, i64)>, key: u64, i: int) -> Option<i64>
    decreases entries.len() - i,
{
    if i < 0 || i >= entries.len() {
        None
    } else if entries[i].0 == key {
        Some(entries[i].1)
    } else {
        lookup_from(entries, key, i + 1)
    }
}

/// The value bound to `key`, with the earliest binding winning.
pub open spec fn lookup(entries: Seq<(u64, i64)>, key: u64) -> Option<i64> {
    lookup_from(entries, key, 0)
}

/// An immutable key-value environment (theme and configuration values),
/// passed by shared reference through every phase of a pass. When a key is
/// bound more than once, the binding added first wins.
#[derive(PartialEq, Eq, Debug)]
pub struct Env {
    pub entries: Vec<(u64, i64)>,
}

impl Env {
    /// An environment with no bindings.
    pub fn empty() -> (r: Env)
        ensures
            r.entries@ == Seq::<(u64, i64)>::empty(),
    {
        Env { entries: Vec::new() }
    }

    /// This environment extended with one more binding. The new binding is
    /// visible only for keys not already bound.
    pub fn adding(self, key: u64, value: i64) -> (r: Env)
        ensures
            r.entries@ == self.entries@.push((key, value)),
    {
        let mut entries = self.entries;
        entries.push((key, value));
        Env { entries }
    }

    /// Look `key` up; the binding added earliest wins.
    pub fn get(&self, key: u64) -> (r: Option<i64>)
        ensures
            r == lookup(self.entries@, key),
    {
        let mut i: usize = 0;
        while i < self.entries.len()
            invariant
                i <= self.entries@.len(),
                lookup(self.entries@, key) == lookup_from(self.entries@, key, i as int),
            decreases self.entries@.len() - i,
        {
            let (k, v) = self.entries[i];
            if k == key {
                return Some(v);
            }
            i = i + 1;
        }
        None
    }
}

/// Capabilities scoped to one layout pass. Size negotiation in this core
/// needs no outside capability, so the bundle carries none yet; it exists so
/// that every layout call is already threaded the way the protocol demands.
pub struct LayoutCtx {}

impl LayoutCtx {
    pub fn new() -> LayoutCtx {
        LayoutCtx {  }
    }
}

/// Capabilities scoped to one event dispatch. Action reporting flows through
/// return values, so the bundle carries no state yet.
pub struct EventCtx {}

impl EventCtx {
    pub fn new() -> EventCtx {
        EventCtx {  }
    }
}

/// One recorded drawing command: a filled rectangle, in absolute coordinates
/// of the surface.
#[derive(Clone, Copy, PartialEq, Eq, Structural, Debug)]
pub struct PaintOp {
    pub rect: Rect,
}

/// The paint-phase capability bundle: a drawing surface modeled as the
/// sequence of commands issued against it, plus the current origin. A widget
/// draws in its own local coordinates; every command is recorded translated
/// by the origin its ancestors established.
pub struct PaintCtx {
    pub origin: Point,
    pub ops: Vec<PaintOp>,
}

impl PaintCtx {
    /// A fresh surface with origin (0, 0) and nothing drawn.
    pub fn new() -> (r: PaintCtx)
        ensures
            r.origin == Point::spec_zero(),
            r.ops@ == Seq::<PaintOp>::empty(),
    {
        PaintCtx { origin: Point::zero(), ops: Vec::new() }
    }

    /// Record a filled rectangle given in local coordinates; it lands on the
    /// surface translated by the current origin.
    pub fn fill_rect(&mut self, r: Rect)
        ensures
            final(self).origin == old(self).origin,
            final(self).ops@ == old(self).ops@.push(
                (PaintOp { rect: r.spec_offset(old(self).origin) }),
            ),
    {
        let absolute = r.offset(self.origin);
        self.ops.push(PaintOp { rect: absolute });
    }
}

} // verus!
