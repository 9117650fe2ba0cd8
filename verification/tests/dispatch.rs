use boxtree::Action;
use boxtree::BoxConstraints;
use boxtree::Env;
use boxtree::Event;
use boxtree::EventCtx;
use boxtree::LayoutCtx;
use boxtree::Padding;
use boxtree::PaintCtx;
use boxtree::Point;
use boxtree::Rect;
use boxtree::Size;
use boxtree::SizedBox;
use boxtree::WidgetBase;
use boxtree::WidgetInner;

#[test]
fn pointer_event_is_translated_once_at_the_child_wrapper() {
    let mut p = Padding::uniform(10, SizedBox::new(50, 50));
    let mut lctx = LayoutCtx::new();
    let env = Env::empty();
    let bc = BoxConstraints::new(Size::new(0, 0), Size::new(100, 100));
    p.layout(&mut lctx, &bc, &env);
    let mut ectx = EventCtx::new();
    // The child sits at (10,10): a press at (25,30) reaches it as (15,20).
    let action = p.event(&Event::PointerDown(Point::new(25, 30)), &mut ectx, &env);
    assert_eq!(action, Some(Action::Activated(Point::new(15, 20))));
}

#[test]
fn key_event_is_forwarded_unchanged() {
    let mut p = Padding::uniform(10, SizedBox::new(50, 50));
    let mut lctx = LayoutCtx::new();
    let env = Env::empty();
    let bc = BoxConstraints::new(Size::new(0, 0), Size::new(100, 100));
    p.layout(&mut lctx, &bc, &env);
    let mut ectx = EventCtx::new();
    let action = p.event(&Event::Key(42), &mut ectx, &env);
    assert_eq!(action, Some(Action::Typed(42)));
}

#[test]
fn padding_returns_the_child_action_verbatim() {
    // For any event, padding's answer is exactly its child wrapper's answer.
    let events = [
        Event::PointerDown(Point::new(3, 3)),
        Event::PointerUp(Point::new(8, -2)),
        Event::Key(7),
    ];
    for ev in events {
        let mut p = Padding::uniform(6, SizedBox::new(40, 40));
        let mut standalone = WidgetBase::new(SizedBox::new(40, 40));
        let mut lctx = LayoutCtx::new();
        let env = Env::empty();
        let bc = BoxConstraints::new(Size::new(0, 0), Size::new(100, 100));
        p.layout(&mut lctx, &bc, &env);
        // Give the standalone wrapper the same cached rectangle the padding
        // assigned its child, so both translate identically.
        let child_rect = p.child.state.layout_rect;
        standalone.layout(&mut lctx, &bc, &env);
        standalone.set_layout_rect(child_rect);
        let mut ectx = EventCtx::new();
        let from_padding = p.event(&ev, &mut ectx, &env);
        let from_child = standalone.event(&ev, &mut ectx, &env);
        assert_eq!(from_padding, from_child);
    }
}

#[test]
fn pointer_up_yields_no_action() {
    let mut p = Padding::uniform(10, SizedBox::new(50, 50));
    let mut lctx = LayoutCtx::new();
    let env = Env::empty();
    let bc = BoxConstraints::new(Size::new(0, 0), Size::new(100, 100));
    p.layout(&mut lctx, &bc, &env);
    let mut ectx = EventCtx::new();
    let action = p.event(&Event::PointerUp(Point::new(25, 30)), &mut ectx, &env);
    assert_eq!(action, None);
}

#[test]
fn child_drawing_is_translated_by_its_assigned_origin() {
    let mut root = WidgetBase::new(Padding::uniform(10, SizedBox::new(50, 50)));
    let mut lctx = LayoutCtx::new();
    let env = Env::empty();
    let bc = BoxConstraints::new(Size::new(0, 0), Size::new(100, 100));
    let size = root.layout(&mut lctx, &bc, &env);
    root.set_layout_rect(Rect::from_origin_size(Point::new(0, 0), size));
    let mut pctx = PaintCtx::new();
    root.paint_with_offset(&mut pctx, &env);
    // Padding draws nothing itself; the leaf's one rectangle lands offset by
    // the child origin (10,10).
    assert_eq!(pctx.ops.len(), 1);
    assert_eq!(
        pctx.ops[0].rect,
        Rect::from_origin_size(Point::new(10, 10), Size::new(50, 50))
    );
    // The surface origin is restored after the pass.
    assert_eq!(pctx.origin, Point::new(0, 0));
}

#[test]
fn paint_offsets_compose_down_the_tree() {
    let mut root = WidgetBase::new(Padding::uniform(10, SizedBox::new(50, 50)));
    let mut lctx = LayoutCtx::new();
    let env = Env::empty();
    let bc = BoxConstraints::new(Size::new(0, 0), Size::new(100, 100));
    let size = root.layout(&mut lctx, &bc, &env);
    // Place the whole padded node at (3,4): the leaf paints at (13,14).
    root.set_layout_rect(Rect::from_origin_size(Point::new(3, 4), size));
    let mut pctx = PaintCtx::new();
    root.paint_with_offset(&mut pctx, &env);
    assert_eq!(pctx.ops.len(), 1);
    assert_eq!(
        pctx.ops[0].rect,
        Rect::from_origin_size(Point::new(13, 14), Size::new(50, 50))
    );
}

#[test]
fn event_before_layout_uses_the_zero_rect_default() {
    // Stale-state policy: before any layout pass the cached rectangle is the
    // zero rectangle, so events are forwarded untranslated.
    let mut p = Padding::uniform(10, SizedBox::new(50, 50));
    let env = Env::empty();
    let mut ectx = EventCtx::new();
    let action = p.event(&Event::PointerDown(Point::new(25, 30)), &mut ectx, &env);
    assert_eq!(action, Some(Action::Activated(Point::new(25, 30))));
}
