use noodle::geometry::{Offset, Point, Size};
use noodle::rect::Rect;

#[test]
fn sub_rect_size() {
    assert_eq!(
        Rect::new(0, 0, 5, 10).contract(Size::new(1, 2)),
        Rect::new(0, 0, 4, 8)
    );
}

#[test]
fn add_point_size() {
    assert_eq!(
        Point::new(5, 10).with_size(Size::new(1, 2)),
        Rect::new(5, 10, 6, 12)
    )
}

#[test]
fn translate_point_and_rect() {
    assert_eq!(Point::new(3, 4).translate(Offset::new(-1, 2)), Point::new(2, 6));
    assert_eq!(Point::new(3, 4).translate_back(Offset::new(1, 1)), Point::new(2, 3));
    assert_eq!(
        Rect::new(0, 0, 2, 2).translate(Offset::new(5, -1)),
        Rect::new(5, -1, 7, 1)
    );
}

#[test]
fn offset_arithmetic() {
    assert_eq!(Offset::new(3, -4).neg(), Offset::new(-3, 4));
    assert_eq!(Offset::new(3, 4).minus(Offset::new(1, 1)), Offset::new(2, 3));
}

#[test]
fn size_scalars() {
    assert_eq!(Size::new(10, 20).add_scalar(5), Size::new(15, 25));
    assert_eq!(Size::new(10, 20).sub_scalar(5), Size::new(5, 15));
}

#[test]
fn rect_dimensions() {
    let r = Rect::new(1, 2, 11, 22);
    assert_eq!(r.width(), 10);
    assert_eq!(r.height(), 20);
    assert_eq!(r.size(), Size::new(10, 20));
    assert!(!r.is_empty());
    assert!(Rect::new(0, 0, 0, 5).is_empty());
    assert!(Rect::new(3, 0, 2, 5).is_empty());
}

#[test]
fn rect_inset_outset() {
    let r = Rect::new(0, 0, 10, 10);
    assert_eq!(r.inset(2, 3), Rect::new(2, 3, 8, 7));
    assert_eq!(r.outset(2, 3), Rect::new(-2, -3, 12, 13));
}

#[test]
fn rect_intersection_no_clamp() {
    // Disjoint ranges give an empty rectangle, not one clamped to the origin.
    let i = Rect::new(0, 0, 2, 2).intersect(Rect::new(5, 5, 7, 7));
    assert_eq!(i, Rect::new(5, 5, 2, 2));
    assert!(i.is_empty());
    assert_eq!(
        Rect::new(0, 0, 4, 4).intersect(Rect::new(2, 1, 6, 3)),
        Rect::new(2, 1, 4, 3)
    );
}

#[test]
fn rect_union_bounding_box() {
    // The union is the bounding box whatever the overlap.
    assert_eq!(
        Rect::new(0, 0, 1, 1).union(Rect::new(5, 5, 7, 7)),
        Rect::new(0, 0, 7, 7)
    );
}

#[test]
fn rect_expand_contract() {
    assert_eq!(Rect::new(1, 1, 2, 2).expand(Size::new(3, 4)), Rect::new(1, 1, 5, 6));
    assert_eq!(Rect::new(1, 1, 5, 6).contract(Size::new(3, 4)), Rect::new(1, 1, 2, 2));
}

#[test]
fn scale_round_trip_exact_multiples() {
    // Scaling up then dividing back down always round-trips...
    let r = Rect::new(1, 1, 5, 5);
    assert_eq!(r.scale(2), Rect::new(2, 2, 10, 10));
    assert_eq!(r.scale(2).scale_down(2), r);
    // ...dividing first is lossy unless every edge is a multiple.
    assert_eq!(r.scale_down(2), Rect::new(0, 0, 2, 2));
    let aligned = Rect::new(2, 4, 6, 8);
    assert_eq!(aligned.scale_down(2).scale(2), aligned);
}

#[test]
fn scale_down_truncates_toward_zero() {
    assert_eq!(Rect::new(-3, -3, 3, 3).scale_down(2), Rect::new(-1, -1, 1, 1));
    assert_eq!(Rect::new(-5, -1, 1, 5).scale_down(3), Rect::new(-1, 0, 0, 1));
}
