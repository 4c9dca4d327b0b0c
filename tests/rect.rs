use euclid::length::Length;
use euclid::point::Point2D;
use euclid::rect::{max, min, Rect};
use euclid::size::Size2D;

#[derive(Clone, Copy, Debug, PartialEq, Eq)]
struct Mm;

#[test]
fn test_min_max() {
    assert!(min(0u32, 1u32) == 0u32);
    assert!(min(-1.0f32, 0.0f32) == -1.0f32);

    assert!(max(0u32, 1u32) == 1u32);
    assert!(max(-1.0f32, 0.0f32) == 0.0f32);
}

#[test]
fn test_translate() {
    let p = Rect(Point2D(0u32, 0u32), Size2D(50u32, 40u32));
    let pp = p.translate(&Point2D(10, 15));

    assert!(pp.size.width == 50);
    assert!(pp.size.height == 40);
    assert!(pp.origin.x == 10);
    assert!(pp.origin.y == 15);

    let r = Rect(Point2D(-10i32, -5i32), Size2D(50i32, 40i32));
    let rr = r.translate(&Point2D(0, -10));

    assert!(rr.size.width == 50);
    assert!(rr.size.height == 40);
    assert!(rr.origin.x == -10);
    assert!(rr.origin.y == -15);
}

#[test]
fn test_union() {
    let p = Rect(Point2D(0i32, 0i32), Size2D(50i32, 40i32));
    let q = Rect(Point2D(20i32, 20i32), Size2D(5i32, 5i32));
    let r = Rect(Point2D(-15i32, -30i32), Size2D(200i32, 15i32));
    let s = Rect(Point2D(20i32, -15i32), Size2D(250i32, 200i32));

    let pq = p.union(&q);
    assert!(pq.origin == Point2D(0, 0));
    assert!(pq.size == Size2D(50, 40));

    let pr = p.union(&r);
    assert!(pr.origin == Point2D(-15, -30));
    assert!(pr.size == Size2D(200, 70));

    let ps = p.union(&s);
    assert!(ps.origin == Point2D(0, -15));
    assert!(ps.size == Size2D(270, 200));
}

#[test]
fn test_intersection() {
    let p = Rect(Point2D(0i32, 0i32), Size2D(10i32, 20i32));
    let q = Rect(Point2D(5i32, 15i32), Size2D(10i32, 10i32));
    let r = Rect(Point2D(-5i32, -5i32), Size2D(8i32, 8i32));

    let pq = p.intersection(&q);
    assert!(pq.is_some());
    let pq = pq.unwrap();
    assert!(pq.origin == Point2D(5, 15));
    assert!(pq.size == Size2D(5, 5));

    let pr = p.intersection(&r);
    assert!(pr.is_some());
    let pr = pr.unwrap();
    assert!(pr.origin == Point2D(0, 0));
    assert!(pr.size == Size2D(3, 3));

    let qr = q.intersection(&r);
    assert!(qr.is_none());
}

#[test]
fn test_contains() {
    let r = Rect(Point2D(-20i32, 15i32), Size2D(100i32, 200i32));

    assert!(r.contains(&Point2D(0, 50)));
    assert!(r.contains(&Point2D(-10, 200)));

    // The near edges are inside, the far edges are not.
    assert!(r.contains(&Point2D(-20, 15)));
    assert!(!r.contains(&Point2D(80, 15)));
    assert!(!r.contains(&Point2D(80, 215)));
    assert!(!r.contains(&Point2D(-20, 215)));

    // Points beyond the top-left corner.
    assert!(!r.contains(&Point2D(-25, 15)));
    assert!(!r.contains(&Point2D(-15, 10)));

    // Points beyond the top-right corner.
    assert!(!r.contains(&Point2D(85, 20)));
    assert!(!r.contains(&Point2D(75, 10)));

    // Points beyond the bottom-right corner.
    assert!(!r.contains(&Point2D(85, 210)));
    assert!(!r.contains(&Point2D(75, 220)));

    // Points beyond the bottom-left corner.
    assert!(!r.contains(&Point2D(-25, 210)));
    assert!(!r.contains(&Point2D(-15, 220)));
}

#[test]
fn test_scale() {
    let p = Rect(Point2D(0u32, 0u32), Size2D(50u32, 40u32));
    let pp = p.scale(10, 15);

    assert!(pp.size.width == 500);
    assert!(pp.size.height == 600);
    assert!(pp.origin.x == 0);
    assert!(pp.origin.y == 0);

    let r = Rect(Point2D(-10i32, -5i32), Size2D(50i32, 40i32));
    let rr = r.scale(1, 20);

    assert!(rr.size.width == 50);
    assert!(rr.size.height == 800);
    assert!(rr.origin.x == -10);
    assert!(rr.origin.y == -100);
}

#[test]
fn test_inflate() {
    let p = Rect(Point2D(0i32, 0i32), Size2D(10i32, 10i32));
    let pp = p.inflate(10, 20);

    assert!(pp.size.width == 30);
    assert!(pp.size.height == 50);
    assert!(pp.origin.x == -10);
    assert!(pp.origin.y == -20);

    let r = Rect(Point2D(0i32, 0i32), Size2D(10i32, 20i32));
    let rr = r.inflate(-2, -5);

    assert!(rr.size.width == 6);
    assert!(rr.size.height == 10);
    assert!(rr.origin.x == 2);
    assert!(rr.origin.y == 5);
}

#[test]
fn test_min_max_x_y() {
    let p = Rect(Point2D(0u32, 0u32), Size2D(50u32, 40u32));
    assert!(p.max_y() == 40);
    assert!(p.min_y() == 0);
    assert!(p.max_x() == 50);
    assert!(p.min_x() == 0);

    let r = Rect(Point2D(-10i32, -5i32), Size2D(50i32, 40i32));
    assert!(r.max_y() == 35);
    assert!(r.min_y() == -5);
    assert!(r.max_x() == 40);
    assert!(r.min_x() == -10);
}

#[test]
fn union_and_intersection_with_itself() {
    let a = Rect(Point2D(-3i32, 7i32), Size2D(12i32, 5i32));
    assert_eq!(a.union(&a), a);
    assert_eq!(a.intersection(&a), Some(a));
}

#[test]
fn intersects_and_union_are_symmetric() {
    let a = Rect(Point2D(0i64, 0i64), Size2D(10i64, 20i64));
    let b = Rect(Point2D(5i64, 15i64), Size2D(10i64, 10i64));
    let c = Rect(Point2D(10i64, 0i64), Size2D(4i64, 4i64));
    assert!(a.intersects(&b) && b.intersects(&a));
    assert!(!a.intersects(&c) && !c.intersects(&a));
    assert_eq!(a.union(&b), b.union(&a));
    assert_eq!(a.union(&c), c.union(&a));
}

#[test]
fn touching_edges_do_not_intersect() {
    let a = Rect(Point2D(0i32, 0i32), Size2D(10i32, 10i32));
    let b = Rect(Point2D(10i32, 0i32), Size2D(10i32, 10i32));
    assert!(!a.intersects(&b));
    assert_eq!(a.intersection(&b), None);
}

#[test]
fn union_of_disjoint_rects_is_bounding_box() {
    let a = Rect(Point2D(0i32, 0i32), Size2D(2i32, 2i32));
    let b = Rect(Point2D(8i32, 5i32), Size2D(2i32, 3i32));
    let u = a.union(&b);
    assert_eq!(u, Rect(Point2D(0, 0), Size2D(10, 8)));
}

#[test]
fn inflate_can_give_negative_size() {
    let r = Rect(Point2D(0i32, 0i32), Size2D(2i32, 2i32));
    let s = r.inflate(-3, -1);
    assert_eq!(s, Rect(Point2D(3, 1), Size2D(-4, 0)));
    assert!(s.is_empty());
}

#[test]
fn zero_rect_is_empty() {
    let z: Rect<u16> = Rect::zero();
    assert_eq!(z, Rect(Point2D(0, 0), Size2D(0, 0)));
    assert!(z.is_empty());
    assert!(!Rect(Point2D(0u16, 0u16), Size2D(1u16, 1u16)).is_empty());
    assert!(Rect(Point2D(0i16, 0i16), Size2D(5i16, 0i16)).is_empty());
}

#[test]
fn max_point_is_far_corner() {
    let r = Rect(Point2D(-10i32, -5i32), Size2D(50i32, 40i32));
    assert_eq!(r.max_point(), Point2D(40, 35));
}

#[test]
fn untyped_round_trip() {
    let r: Rect<Length<Mm, i32>> = Rect(
        Point2D(Length::new(1), Length::new(-2)),
        Size2D(Length::new(30), Length::new(40)),
    );
    let u = r.to_untyped();
    assert_eq!(u, Rect(Point2D(1, -2), Size2D(30, 40)));
    let back: Rect<Length<Mm, i32>> = Rect::from_untyped(&u);
    assert_eq!(back, r);
}

#[test]
fn cast_keeps_values_that_fit() {
    let r: Rect<Length<Mm, i64>> = Rect(
        Point2D(Length::new(1), Length::new(2)),
        Size2D(Length::new(300), Length::new(4)),
    );
    let c: Option<Rect<Length<Mm, u16>>> = r.cast();
    let c = c.unwrap();
    assert_eq!(c.origin.x.get(), 1u16);
    assert_eq!(c.size.width.get(), 300u16);
    let u = r.as_uint();
    assert_eq!(u.size.width.get(), 300usize);
    assert_eq!(u.origin.y.get(), 2usize);
}

#[test]
fn cast_refuses_values_out_of_range() {
    let r: Rect<Length<Mm, i32>> = Rect(
        Point2D(Length::new(-1), Length::new(2)),
        Size2D(Length::new(3), Length::new(4)),
    );
    let c: Option<Rect<Length<Mm, u32>>> = r.cast();
    assert!(c.is_none());
    let big: Rect<Length<Mm, i32>> = Rect(
        Point2D(Length::new(0), Length::new(0)),
        Size2D(Length::new(70000), Length::new(4)),
    );
    let c: Option<Rect<Length<Mm, i16>>> = big.cast();
    assert!(c.is_none());
}

#[test]
fn typed_rect_operations_keep_units() {
    let a: Rect<Length<Mm, i32>> = Rect(
        Point2D(Length::new(0), Length::new(0)),
        Size2D(Length::new(10), Length::new(10)),
    );
    let b: Rect<Length<Mm, i32>> = Rect(
        Point2D(Length::new(5), Length::new(5)),
        Size2D(Length::new(10), Length::new(10)),
    );
    let i = a.intersection(&b).unwrap();
    assert_eq!(i.to_untyped(), Rect(Point2D(5, 5), Size2D(5, 5)));
    assert_eq!(a.union(&b).to_untyped(), Rect(Point2D(0, 0), Size2D(15, 15)));
}
