//! A widget that just adds padding during layout.
//!
//! Padding is the representative decorator: it owns exactly one child, shrinks
//! the incoming constraints by its insets (clamped at zero), places the child
//! at (left, top), reports the child's size grown back by the insets, and
//! forwards paint and event calls untouched — the one coordinate translation
//! happens at the child's wrapper, using the rectangle assigned here.

use vstd::prelude::*;

use crate::contexts::Env;
use crate::contexts::EventCtx;
use crate::contexts::LayoutCtx;
use crate::contexts::PaintCtx;
use crate::contexts::PaintOp;
use crate::events::Action;
use crate::events::Event;
use crate::geometry::add_saturating;
use crate::geometry::spec_add_saturating;
use crate::geometry::BoxConstraints;
use crate::geometry::Point;
use crate::geometry::Rect;
use crate::geometry::Size;
use crate::widget::BaseState;
use crate::widget::WidgetBase;
use crate::widget::WidgetInner;

verus! {

/// A decorator that reserves `left`/`right`/`top`/`bottom` space around one
/// owned child. All four insets are non-negative by invariant.
pub struct Padding<W> {
    pub left: i64,
    pub right: i64,
    pub top: i64,
    pub bottom: i64,
    pub child: WidgetBase<W>,
}

impl<W: WidgetInner> Padding<W> {
    /// The combined horizontal inset.
    pub open spec fn spec_hpad(&self) -> i64 {
        spec_add_saturating(self.left, self.right)
    }

    /// The combined vertical inset.
    pub open spec fn spec_vpad(&self) -> i64 {
        spec_add_saturating(self.top, self.bottom)
    }

    /// The constraints this decorator offers its child: both bounds shrunk by
    /// the combined insets, clamped at zero.
    pub open spec fn child_constraints(&self, bc: BoxConstraints) -> BoxConstraints {
        bc.shrunk(self.spec_hpad(), self.spec_vpad())
    }

    /// Create a widget with the four insets given separately.
    pub fn new(left: i64, right: i64, top: i64, bottom: i64, child: W) -> (r: Padding<W>)
        requires
            0 <= left,
            0 <= right,
            0 <= top,
            0 <= bottom,
            child.wf(),
        ensures
            r.left == left,
            r.right == right,
            r.top == top,
            r.bottom == bottom,
            r.child.inner == child,
            r.child.state.layout_rect == Rect::spec_zero(),
            r.wf(),
    {
        Padding { left, right, top, bottom, child: WidgetBase::new(child) }
    }

    /// Create a widget with uniform padding.
    pub fn uniform(padding: i64, child: W) -> (r: Padding<W>)
        requires
            0 <= padding,
            child.wf(),
        ensures
            r.left == padding,
            r.right == padding,
            r.top == padding,
            r.bottom == padding,
            r.child.inner == child,
            r.child.state.layout_rect == Rect::spec_zero(),
            r.wf(),
    {
        Padding::new(padding, padding, padding, padding, child)
    }
}

impl<W: WidgetInner> WidgetInner for Padding<W> {
    open spec fn wf(&self) -> bool {
        &&& self.left >= 0
        &&& self.right >= 0
        &&& self.top >= 0
        &&& self.bottom >= 0
        &&& self.child.wf()
    }

    open spec fn size_for(&self, bc: BoxConstraints) -> Size {
        let inner_size = self.child.inner.size_for(self.child_constraints(bc));
        Size {
            width: spec_add_saturating(inner_size.width, self.spec_hpad()),
            height: spec_add_saturating(inner_size.height, self.spec_vpad()),
        }
    }

    open spec fn after_layout(&self, bc: BoxConstraints) -> Padding<W> {
        let cbc = self.child_constraints(bc);
        Padding {
            left: self.left,
            right: self.right,
            top: self.top,
            bottom: self.bottom,
            child: WidgetBase {
                inner: self.child.inner.after_layout(cbc),
                state: BaseState {
                    layout_rect: Rect {
                        origin: Point { x: self.left, y: self.top },
                        size: self.child.inner.size_for(cbc),
                    },
                },
            },
        }
    }

    open spec fn paint_ops(&self, state: BaseState, base: Point) -> Seq<PaintOp> {
        self.child.inner.paint_ops(
            self.child.state,
            base.spec_offset(self.child.state.layout_rect.origin),
        )
    }

    open spec fn action_for(&self, event: Event) -> Option<Action> {
        self.child.action_for(event)
    }

    open spec fn after_event(&self, event: Event) -> Padding<W> {
        Padding {
            left: self.left,
            right: self.right,
            top: self.top,
            bottom: self.bottom,
            child: self.child.after_event(event),
        }
    }

    fn layout(&mut self, ctx: &mut LayoutCtx, bc: &BoxConstraints, env: &Env) -> (size: Size) {
        let hpad = add_saturating(self.left, self.right);
        let vpad = add_saturating(self.top, self.bottom);
        let child_bc = bc.shrink(hpad, vpad);
        let child_size = self.child.layout(ctx, &child_bc, env);
        let origin = Point::new(self.left, self.top);
        self.child.set_layout_rect(Rect::from_origin_size(origin, child_size));
        Size::new(
            add_saturating(child_size.width, hpad),
            add_saturating(child_size.height, vpad),
        )
    }

    fn paint(&mut self, ctx: &mut PaintCtx, _state: &BaseState, env: &Env) {
        self.child.paint_with_offset(ctx, env);
    }

    fn event(&mut self, event: &Event, ctx: &mut EventCtx, env: &Env) -> (action: Option<
        Action,
    >) {
        self.child.event(event, ctx, env)
    }

    proof fn lemma_layout_preserves_size(&self, bc: BoxConstraints) {
        let cbc = self.child_constraints(bc);
        assert(cbc.wf());
        self.child.inner.lemma_layout_preserves_size(cbc);
    }
}

/// Law: the constraints a padding decorator offers its child are the incoming
/// constraints shrunk by the combined insets on each axis and clamped at
/// zero — never negative, even when an inset exceeds a bound.
pub proof fn lemma_child_constraints_shrink_and_clamp<W: WidgetInner>(
    p: Padding<W>,
    bc: BoxConstraints,
)
    requires
        p.wf(),
        p.left + p.right <= i64::MAX,
        p.top + p.bottom <= i64::MAX,
    ensures
        p.child_constraints(bc).min.width == (if bc.min.width - (p.left + p.right) > 0 {
            bc.min.width - (p.left + p.right)
        } else {
            0
        }),
        p.child_constraints(bc).max.width == (if bc.max.width - (p.left + p.right) > 0 {
            bc.max.width - (p.left + p.right)
        } else {
            0
        }),
        p.child_constraints(bc).min.height == (if bc.min.height - (p.top + p.bottom) > 0 {
            bc.min.height - (p.top + p.bottom)
        } else {
            0
        }),
        p.child_constraints(bc).max.height == (if bc.max.height - (p.top + p.bottom) > 0 {
            bc.max.height - (p.top + p.bottom)
        } else {
            0
        }),
{
}

/// Law (contract composition): when the combined insets fit within the
/// incoming maximum on both axes and the child reports a size within the
/// constraints it is offered, the padded size lies within the incoming
/// constraints. The inset bound is needed: with insets larger than the
/// maximum, the shrunk range clamps at zero and the grown size overshoots.
pub proof fn lemma_padded_size_within_constraints<W: WidgetInner>(
    p: Padding<W>,
    bc: BoxConstraints,
)
    requires
        p.wf(),
        bc.wf(),
        p.spec_hpad() <= bc.max.width,
        p.spec_vpad() <= bc.max.height,
        p.child_constraints(bc).contains_size(
            p.child.inner.size_for(p.child_constraints(bc)),
        ),
    ensures
        bc.contains_size(p.size_for(bc)),
{
}

/// Law (offset correctness): after a layout pass the child's assigned
/// rectangle has origin exactly (left, top).
pub proof fn lemma_child_placed_at_insets<W: WidgetInner>(p: Padding<W>, bc: BoxConstraints)
    ensures
        p.after_layout(bc).child.state.layout_rect.origin == (Point { x: p.left, y: p.top }),
{
}

/// Law (offset correctness, paint half): padding records no drawing of its
/// own; its paint commands are exactly the child's, recorded against a base
/// translated by the child's assigned origin.
pub proof fn lemma_paint_translated_by_child_origin<W: WidgetInner>(
    p: Padding<W>,
    state: BaseState,
    base: Point,
)
    ensures
        p.paint_ops(state, base) == p.child.inner.paint_ops(
            p.child.state,
            base.spec_offset(p.child.state.layout_rect.origin),
        ),
{
}

/// Law (event forwarding): padding passes events through unchanged — the
/// action it reports is exactly the action its child's wrapper reports for
/// the same event.
pub proof fn lemma_event_forwarded_verbatim<W: WidgetInner>(p: Padding<W>, event: Event)
    ensures
        p.action_for(event) == p.child.action_for(event),
{
}

} // verus!
