use boxtree::BoxConstraints;
use boxtree::Env;
use boxtree::LayoutCtx;
use boxtree::Padding;
use boxtree::Point;
use boxtree::Rect;
use boxtree::Size;
use boxtree::SizedBox;
use boxtree::WidgetInner;

#[test]
fn uniform_padding_shrinks_places_and_grows() {
    // Constraints min=(0,0), max=(100,100); uniform 10; child wants (50,50).
    let mut p = Padding::uniform(10, SizedBox::new(50, 50));
    let mut lctx = LayoutCtx::new();
    let env = Env::empty();
    let bc = BoxConstraints::new(Size::new(0, 0), Size::new(100, 100));
    let size = p.layout(&mut lctx, &bc, &env);
    // The child is offered min=(0,0), max=(80,80).
    assert_eq!(
        p.child.inner.seen_constraints,
        Some(BoxConstraints::new(Size::new(0, 0), Size::new(80, 80)))
    );
    // The child is placed at (10,10) with its returned size.
    assert_eq!(
        p.child.state.layout_rect,
        Rect::from_origin_size(Point::new(10, 10), Size::new(50, 50))
    );
    // Padding reports the child's size grown by the insets.
    assert_eq!(size, Size::new(70, 70));
}

#[test]
fn oversized_insets_clamp_child_constraints_at_zero() {
    // Constraints max=(5,5), inset 10 on each side: the shrunk maximum must
    // clamp to (0,0), never go negative.
    let mut p = Padding::uniform(10, SizedBox::new(50, 50));
    let mut lctx = LayoutCtx::new();
    let env = Env::empty();
    let bc = BoxConstraints::new(Size::new(0, 0), Size::new(5, 5));
    let size = p.layout(&mut lctx, &bc, &env);
    assert_eq!(
        p.child.inner.seen_constraints,
        Some(BoxConstraints::new(Size::new(0, 0), Size::new(0, 0)))
    );
    // The child is forced to (0,0); the padded size is the bare insets.
    assert_eq!(p.child.state.layout_rect.size, Size::new(0, 0));
    assert_eq!(size, Size::new(20, 20));
}

#[test]
fn layout_twice_with_same_constraints_yields_same_size() {
    let mut p = Padding::uniform(7, SizedBox::new(31, 12));
    let mut lctx = LayoutCtx::new();
    let env = Env::empty();
    let bc = BoxConstraints::new(Size::new(10, 10), Size::new(90, 90));
    let first = p.layout(&mut lctx, &bc, &env);
    let second = p.layout(&mut lctx, &bc, &env);
    assert_eq!(first, second);
    assert_eq!(first, Size::new(45, 26));
}

#[test]
fn non_uniform_insets_shift_origin_and_size() {
    let mut p = Padding::new(1, 2, 3, 4, SizedBox::new(10, 10));
    let mut lctx = LayoutCtx::new();
    let env = Env::empty();
    let bc = BoxConstraints::new(Size::new(0, 0), Size::new(100, 100));
    let size = p.layout(&mut lctx, &bc, &env);
    // hpad = 3, vpad = 7; the child sits at (left, top) = (1, 3).
    assert_eq!(
        p.child.inner.seen_constraints,
        Some(BoxConstraints::new(Size::new(0, 0), Size::new(97, 93)))
    );
    assert_eq!(p.child.state.layout_rect.origin, Point::new(1, 3));
    assert_eq!(size, Size::new(13, 17));
}

#[test]
fn nested_padding_composes_insets() {
    let mut p = Padding::uniform(10, Padding::uniform(5, SizedBox::new(20, 20)));
    let mut lctx = LayoutCtx::new();
    let env = Env::empty();
    let bc = BoxConstraints::new(Size::new(0, 0), Size::new(100, 100));
    let size = p.layout(&mut lctx, &bc, &env);
    // Inner padding reports 20 + 10 = 30 per axis; outer adds 20 more.
    assert_eq!(size, Size::new(50, 50));
    // Inner child saw constraints shrunk by both layers: 100 - 20 - 10 = 70.
    assert_eq!(
        p.child.inner.child.inner.seen_constraints,
        Some(BoxConstraints::new(Size::new(0, 0), Size::new(70, 70)))
    );
    assert_eq!(p.child.state.layout_rect.origin, Point::new(10, 10));
    assert_eq!(p.child.inner.child.state.layout_rect.origin, Point::new(5, 5));
}

#[test]
fn padded_size_stays_within_constraints_when_insets_fit() {
    // Composition: the padded size satisfies the constraints padding itself
    // received, as long as the insets fit within the maximum.
    let mut p = Padding::uniform(10, SizedBox::new(500, 1));
    let mut lctx = LayoutCtx::new();
    let env = Env::empty();
    let bc = BoxConstraints::new(Size::new(30, 30), Size::new(90, 90));
    let size = p.layout(&mut lctx, &bc, &env);
    // Child clamps to (70, 10); padding reports (90, 30).
    assert!(size.width >= bc.min.width && size.width <= bc.max.width);
    assert!(size.height >= bc.min.height && size.height <= bc.max.height);
    assert_eq!(size, Size::new(90, 30));
}

#[test]
fn tight_constraints_force_the_padded_size() {
    let mut p = Padding::uniform(4, SizedBox::new(1, 99));
    let mut lctx = LayoutCtx::new();
    let env = Env::empty();
    let bc = BoxConstraints::tight(Size::new(40, 40));
    let size = p.layout(&mut lctx, &bc, &env);
    // The child is forced to exactly (32, 32); padding grows it back.
    assert_eq!(
        p.child.inner.seen_constraints,
        Some(BoxConstraints::tight(Size::new(32, 32)))
    );
    assert_eq!(size, Size::new(40, 40));
}
