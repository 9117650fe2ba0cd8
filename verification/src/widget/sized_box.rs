//! A leaf widget with a preferred size.
//!
//! It reports its preferred size clamped into whatever constraints it is
//! offered, caches the constraints it last saw (a node may keep such metrics
//! across passes), paints one rectangle covering its assigned size, and
//! reports a pointer press or a key press upward as an action.

use vstd::prelude::*;

use crate::contexts::Env;
use crate::contexts::EventCtx;
use crate::contexts::LayoutCtx;
use crate::contexts::PaintCtx;
use crate::contexts::PaintOp;
use crate::events::Action;
use crate::events::Event;
use crate::geometry::BoxConstraints;
use crate::geometry::Point;
use crate::geometry::Rect;
use crate::geometry::Size;
use crate::widget::BaseState;
use crate::widget::WidgetInner;

verus! {

/// A leaf that wants to be exactly `width` by `height`, yielding to the
/// constraints it is offered.
#[derive(Clone, Copy, PartialEq, Eq, Structural, Debug)]
pub struct SizedBox {
    pub width: i64,
    pub height: i64,
    /// The constraints seen in the most recent layout pass, if any.
    pub seen_constraints: Option<BoxConstraints>,
}

impl SizedBox {
    /// The size this leaf asks for before constraints are applied.
    pub open spec fn preferred(&self) -> Size {
        Size { width: self.width, height: self.height }
    }

    pub fn new(width: i64, height: i64) -> (r: SizedBox)
        requires
            0 <= width,
            0 <= height,
        ensures
            r == (SizedBox { width, height, seen_constraints: None }),
            r.wf(),
    {
        SizedBox { width, height, seen_constraints: None }
    }
}

impl WidgetInner for SizedBox {
    open spec fn wf(&self) -> bool {
        self.width >= 0 && self.height >= 0
    }

    open spec fn size_for(&self, bc: BoxConstraints) -> Size {
        bc.spec_constrain(self.preferred())
    }

    open spec fn after_layout(&self, bc: BoxConstraints) -> SizedBox {
        SizedBox { width: self.width, height: self.height, seen_constraints: Some(bc) }
    }

    open spec fn paint_ops(&self, state: BaseState, base: Point) -> Seq<PaintOp> {
        seq![PaintOp { rect: Rect { origin: base, size: state.layout_rect.size } }]
    }

    open spec fn action_for(&self, event: Event) -> Option<Action> {
        match event {
            Event::PointerDown(p) => Some(Action::Activated(p)),
            Event::PointerUp(_) => None,
            Event::Key(k) => Some(Action::Typed(k)),
        }
    }

    open spec fn after_event(&self, event: Event) -> SizedBox {
        *self
    }

    fn layout(&mut self, _ctx: &mut LayoutCtx, bc: &BoxConstraints, _env: &Env) -> (size: Size) {
        self.seen_constraints = Some(*bc);
        bc.constrain(Size::new(self.width, self.height))
    }

    fn paint(&mut self, ctx: &mut PaintCtx, state: &BaseState, _env: &Env) {
        let local = Rect::from_origin_size(Point::zero(), state.layout_rect.size);
        ctx.fill_rect(local);
        proof {
            let base = old(ctx).origin;
            let op = PaintOp { rect: local.spec_offset(base) };
            assert(local.spec_offset(base).origin == base);
            assert(old(ctx).ops@.push(op) =~= old(ctx).ops@ + seq![op]);
        }
    }

    fn event(&mut self, event: &Event, _ctx: &mut EventCtx, _env: &Env) -> (action: Option<
        Action,
    >) {
        match event {
            Event::PointerDown(p) => Some(Action::Activated(*p)),
            Event::PointerUp(_) => None,
            Event::Key(k) => Some(Action::Typed(*k)),
        }
    }

    proof fn lemma_layout_preserves_size(&self, bc: BoxConstraints) {
    }
}

} // verus!
