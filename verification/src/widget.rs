//! The composition contract every tree node implements, and the wrapper that
//! mediates between a node and its parent.
//!
//! `WidgetInner` is the three-phase contract: negotiate a size from box
//! constraints, record paint commands, handle an event. `WidgetBase` owns one
//! implementation plus the cached rectangle its parent assigned, and applies
//! that rectangle so the inner widget always works as if its own origin were
//! (0, 0): paint commands are recorded translated forward by the cached
//! origin, events are translated back by it, each exactly once, at this
//! wrapper.

pub mod padding;
pub mod sized_box;

use vstd::prelude::*;

use crate::contexts::Env;
use crate::contexts::EventCtx;
use crate::contexts::LayoutCtx;
use crate::contexts::PaintCtx;
use crate::contexts::PaintOp;
use crate::events::Action;
use crate::events::Event;
use crate::geometry::BoxConstraints;
use crate::geometry::Point;
use crate::geometry::Rect;
use crate::geometry::Size;

verus! {

/// The cached per-node state a wrapper keeps between passes: the rectangle
/// this node occupies in its parent's coordinate space. It defaults to the
/// zero rectangle until the first layout pass assigns one, so a paint or
/// event call that arrives early degrades to zero geometry instead of
/// failing.
#[derive(Clone, Copy, PartialEq, Eq, Structural, Debug)]
pub struct BaseState {
    pub layout_rect: Rect,
}

/// The contract every composable node implements. Each implementation gives
/// spec-level models of its behaviour (`size_for`, `paint_ops`, `action_for`,
/// and the state transitions `after_layout` / `after_event`), and the three
/// phase methods are pinned to those models.
pub trait WidgetInner: Sized {
    /// The widget's internal invariant.
    spec fn wf(&self) -> bool;

    /// The size this widget reports when laid out with constraints `bc`.
    spec fn size_for(&self, bc: BoxConstraints) -> Size;

    /// The widget's state after a layout pass with constraints `bc`.
    spec fn after_layout(&self, bc: BoxConstraints) -> Self;

    /// The paint commands this widget records when painted with node state
    /// `state` while the surface origin stands at `base`.
    spec fn paint_ops(&self, state: BaseState, base: Point) -> Seq<PaintOp>;

    /// The action, if any, this widget reports for an event already expressed
    /// in its local coordinates.
    spec fn action_for(&self, event: Event) -> Option<Action>;

    /// The widget's state after handling an event already expressed in its
    /// local coordinates.
    spec fn after_event(&self, event: Event) -> Self;

    /// Negotiate a size: the result is the widget's modeled size for `bc`,
    /// and is well formed. A container assigns each child its rectangle
    /// before returning.
    fn layout(&mut self, ctx: &mut LayoutCtx, bc: &BoxConstraints, env: &Env) -> (size: Size)
        requires
            old(self).wf(),
            bc.wf(),
        ensures
            final(self).wf(),
            size == old(self).size_for(*bc),
            size.wf(),
            *final(self) == old(self).after_layout(*bc),
            *final(ctx) == *old(ctx),
    ;

    /// Record this widget's drawing against the surface: exactly the modeled
    /// commands are appended, the origin is left where it was, and no
    /// layout-relevant state changes.
    fn paint(&mut self, ctx: &mut PaintCtx, state: &BaseState, env: &Env)
        requires
            old(self).wf(),
        ensures
            *final(self) == *old(self),
            final(ctx).origin == old(ctx).origin,
            final(ctx).ops@ == old(ctx).ops@ + old(self).paint_ops(*state, old(ctx).origin),
    ;

    /// Handle an event delivered in local coordinates; the returned action is
    /// exactly the modeled one, and the state moves to the modeled successor.
    fn event(&mut self, event: &Event, ctx: &mut EventCtx, env: &Env) -> (action: Option<Action>)
        requires
            old(self).wf(),
        ensures
            final(self).wf(),
            action == old(self).action_for(*event),
            *final(self) == old(self).after_event(*event),
            *final(ctx) == *old(ctx),
    ;

    /// Law: a layout pass leaves sizing intact. The size reported for `bc` is
    /// well formed, and laying the widget out with `bc` does not change the
    /// size it would report for those same constraints — so repeating a
    /// layout pass with equal constraints yields an equal size, with no
    /// hidden accumulation of state across passes.
    proof fn lemma_layout_preserves_size(&self, bc: BoxConstraints)
        requires
            self.wf(),
            bc.wf(),
        ensures
            self.size_for(bc).wf(),
            self.after_layout(bc).wf(),
            self.after_layout(bc).size_for(bc) == self.size_for(bc),
    ;
}

/// Owns one widget implementation together with its cached geometry, and
/// decouples what the widget computes from where it sits. The parent lays the
/// child out, then records the child's rectangle here; paint and event calls
/// afterwards translate by that rectangle's origin, so the child always works
/// in its own local coordinate space.
pub struct WidgetBase<W> {
    pub inner: W,
    pub state: BaseState,
}

impl<W: WidgetInner> WidgetBase<W> {
    /// The wrapper's invariant: the widget's own invariant, plus a well
    /// formed cached size.
    pub open spec fn wf(&self) -> bool {
        self.inner.wf() && self.state.layout_rect.size.wf()
    }

    /// The action the wrapped widget reports for an event given in the
    /// parent's coordinates: translation by the cached origin happens here,
    /// once.
    pub open spec fn action_for(&self, event: Event) -> Option<Action> {
        self.inner.action_for(event.spec_translated(self.state.layout_rect.origin))
    }

    /// The wrapper's state after dispatching an event given in the parent's
    /// coordinates.
    pub open spec fn after_event(&self, event: Event) -> WidgetBase<W> {
        WidgetBase {
            inner: self.inner.after_event(event.spec_translated(self.state.layout_rect.origin)),
            state: self.state,
        }
    }

    /// Wrap a widget. The cached rectangle starts at zero until the first
    /// layout pass assigns one.
    pub fn new(inner: W) -> (r: WidgetBase<W>)
        ensures
            r.inner == inner,
            r.state.layout_rect == Rect::spec_zero(),
    {
        WidgetBase { inner, state: BaseState { layout_rect: Rect::zero() } }
    }

    /// Delegate size negotiation to the owned widget. Position is not touched
    /// here: the parent assigns it afterwards with `set_layout_rect`.
    pub fn layout(&mut self, ctx: &mut LayoutCtx, bc: &BoxConstraints, env: &Env) -> (size: Size)
        requires
            old(self).wf(),
            bc.wf(),
        ensures
            final(self).wf(),
            size == old(self).inner.size_for(*bc),
            size.wf(),
            final(self).inner == old(self).inner.after_layout(*bc),
            final(self).state == old(self).state,
            *final(ctx) == *old(ctx),
    {
        self.inner.layout(ctx, bc, env)
    }

    /// Record the rectangle this node now occupies in its parent's coordinate
    /// space. The parent calls this exactly once per layout pass, between the
    /// child's layout call and any later paint or event call.
    pub fn set_layout_rect(&mut self, rect: Rect)
        requires
            rect.size.wf(),
        ensures
            final(self).inner == old(self).inner,
            final(self).state.layout_rect == rect,
    {
        self.state = BaseState { layout_rect: rect };
    }

    /// Translate the surface origin by the cached rectangle's origin, let the
    /// owned widget paint, and restore the origin: the child paints as if its
    /// own origin were (0, 0), and its commands land translated by exactly
    /// its assigned origin.
    pub fn paint_with_offset(&mut self, ctx: &mut PaintCtx, env: &Env)
        requires
            old(self).wf(),
        ensures
            *final(self) == *old(self),
            final(ctx).origin == old(ctx).origin,
            final(ctx).ops@ == old(ctx).ops@ + old(self).inner.paint_ops(
                old(self).state,
                old(ctx).origin.spec_offset(old(self).state.layout_rect.origin),
            ),
    {
        let saved = ctx.origin;
        ctx.origin = saved.offset(self.state.layout_rect.origin);
        self.inner.paint(ctx, &self.state, env);
        ctx.origin = saved;
    }

    /// Translate a coordinate-bearing event by the cached rectangle's origin,
    /// mirroring the paint offset, then delegate to the owned widget.
    pub fn event(&mut self, event: &Event, ctx: &mut EventCtx, env: &Env) -> (action: Option<
        Action,
    >)
        requires
            old(self).wf(),
        ensures
            final(self).wf(),
            action == old(self).action_for(*event),
            *final(self) == old(self).after_event(*event),
            final(self).state == old(self).state,
            *final(ctx) == *old(ctx),
    {
        let local = event.translated(self.state.layout_rect.origin);
        self.inner.event(&local, ctx, env)
    }
}

} // verus!
