use euclid::length::Length;
use euclid::num::{cast, ApproxEq, Ceil, Floor, One, Round, Scalar, ValueOrLength, Zero};
use euclid::point::{Point2D, Point3D, Point4D};
use euclid::size::Size2D;

#[derive(Clone, Copy, Debug, PartialEq, Eq)]
struct Px;

#[test]
fn zero_and_one_are_identities() {
    assert_eq!(<i32 as Zero>::zero().plus(17), 17);
    assert_eq!(<u64 as One>::one().times(23), 23);
    assert_eq!(<Length<Px, i16> as Zero>::zero(), Length::new(0));
}

#[test]
fn rounding_keeps_whole_numbers() {
    assert_eq!(Round::round(-7i32), -7);
    assert_eq!(Floor::floor(9u16), 9);
    assert_eq!(Ceil::ceil(-3isize), -3);
}

#[test]
fn approx_eq_on_integers_is_equality() {
    assert!(5i64.approx_eq(&5));
    assert!(!5i64.approx_eq(&6));
}

#[test]
fn casts_check_range() {
    assert_eq!(cast::<i32, u16>(65535), Some(65535u16));
    assert_eq!(cast::<i32, u16>(65536), None);
    assert_eq!(cast::<i32, u32>(-1), None);
    assert_eq!(cast::<i64, i32>(1 << 40), None);
    assert_eq!(cast::<u64, usize>(42), Some(42usize));
}

#[test]
fn lengths_add_within_a_unit() {
    let a: Length<Px, i32> = Length::new(3);
    let b: Length<Px, i32> = Length::new(4);
    assert_eq!(a.plus(b).get(), 7);
    assert_eq!(b.minus(a).get(), 1);
    assert_eq!(a.scale_by(5).get(), 15);
    assert!(a.is_lt(&b));
}

#[test]
fn value_or_length_hands_back_the_value() {
    assert_eq!(ValueOrLength::<i32, Px>::value(12i32), 12);
}

#[test]
fn points_add_componentwise() {
    let p = Point2D(1i32, 2);
    let q = Point2D(10i32, 20);
    assert_eq!(p.add(&q), Point2D(11, 22));
    assert_eq!(q.sub(&p), Point2D(9, 18));
    assert_eq!(p.scale_by(3), Point2D(3, 6));
    assert_eq!(Point2D::<u16>::zero(), Point2D(0, 0));
    assert_eq!(
        Point3D::new(1i32, 2, 3).add(&Point3D::new(4, 5, 6)),
        Point3D::new(5, 7, 9)
    );
    assert_eq!(
        Point4D::new(1i32, 2, 3, 4).sub(&Point4D::new(4, 5, 6, 7)),
        Point4D::new(-3, -3, -3, -3)
    );
}

#[test]
fn typed_points_and_sizes_convert() {
    let p: Point2D<Length<Px, i32>> = Point2D::from_untyped(&Point2D(3, -4));
    assert_eq!(p.to_untyped(), Point2D(3, -4));
    let c: Option<Point2D<Length<Px, u32>>> = p.cast();
    assert!(c.is_none());
    let s: Size2D<Length<Px, i32>> = Size2D::from_untyped(&Size2D(3, 4));
    let c: Option<Size2D<Length<Px, u16>>> = s.cast();
    assert_eq!(c.unwrap().to_untyped(), Size2D(3u16, 4u16));
    assert!(Size2D(0i32, 4).is_empty());
    assert!(!Size2D(1i32, 4).is_empty());
}
