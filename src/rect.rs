use vstd::prelude::*;

use vstd::std_specs::cmp::PartialOrdSpec;

use crate::length::Length;
use crate::num::{Scalar, Zero};
use crate::point::Point2D;
use crate::size::Size2D;

verus! {

/// A rectangle given by its origin (the corner of least coordinates) and its size.
///
/// Nothing forces the size to be positive: a rectangle of negative size is a legal
/// value, on which the operations below compute what their formulas give.
#[derive(Clone, Copy, Debug, PartialEq, Eq)]
pub struct Rect<T> {
    pub origin: Point2D<T>,
    pub size: Size2D<T>,
}

/// Builds a rectangle from its origin and its size.
#[allow(non_snake_case)]
pub fn Rect<T>(origin: Point2D<T>, size: Size2D<T>) -> (r: Rect<T>)
    ensures
        r.origin == origin,
        r.size == size,
{
    Rect { origin, size }
}

impl<T: Scalar> View for Rect<T> {
    type V = Rect<int>;

    open spec fn view(&self) -> Rect<int> {
        Rect { origin: self.origin@, size: self.size@ }
    }
}

pub open spec fn min_int(a: int, b: int) -> int {
    if a <= b {
        a
    } else {
        b
    }
}

pub open spec fn max_int(a: int, b: int) -> int {
    if a >= b {
        a
    } else {
        b
    }
}

/// The rectangle with the given corners.
pub open spec fn rect_from_corners(x0: int, y0: int, x1: int, y1: int) -> Rect<int> {
    Rect { origin: Point2D { x: x0, y: y0 }, size: Size2D { width: x1 - x0, height: y1 - y0 } }
}

pub open spec fn far_x(a: Rect<int>) -> int {
    a.origin.x + a.size.width
}

pub open spec fn far_y(a: Rect<int>) -> int {
    a.origin.y + a.size.height
}

/// The half-open spans `[x, x + width)` and `[y, y + height)` of the two rectangles
/// overlap; spans that only touch do not.
pub open spec fn rect_intersects(a: Rect<int>, b: Rect<int>) -> bool {
    &&& a.origin.x < far_x(b)
    &&& b.origin.x < far_x(a)
    &&& a.origin.y < far_y(b)
    &&& b.origin.y < far_y(a)
}

/// The greatest origin and the least far corner of the two rectangles.
pub open spec fn rect_intersection(a: Rect<int>, b: Rect<int>) -> Rect<int> {
    rect_from_corners(
        max_int(a.origin.x, b.origin.x),
        max_int(a.origin.y, b.origin.y),
        min_int(far_x(a), far_x(b)),
        min_int(far_y(a), far_y(b)),
    )
}

/// The bounding box of the two rectangles: the least origin and the greatest far corner.
pub open spec fn rect_union(a: Rect<int>, b: Rect<int>) -> Rect<int> {
    rect_from_corners(
        min_int(a.origin.x, b.origin.x),
        min_int(a.origin.y, b.origin.y),
        max_int(far_x(a), far_x(b)),
        max_int(far_y(a), far_y(b)),
    )
}

/// Inclusive of the near edges, exclusive of the far ones.
pub open spec fn rect_contains(a: Rect<int>, p: Point2D<int>) -> bool {
    &&& a.origin.x <= p.x < far_x(a)
    &&& a.origin.y <= p.y < far_y(a)
}

fn smaller<T: Scalar>(a: T, b: T) -> (r: T)
    ensures
        r.as_int() == min_int(a.as_int(), b.as_int()),
{
    if a.is_le(&b) {
        a
    } else {
        b
    }
}

fn larger<T: Scalar>(a: T, b: T) -> (r: T)
    ensures
        r.as_int() == max_int(a.as_int(), b.as_int()),
{
    if b.is_le(&a) {
        a
    } else {
        b
    }
}

impl<T> Rect<T> {
    pub fn new(origin: Point2D<T>, size: Size2D<T>) -> (r: Rect<T>)
        ensures
            r.origin == origin,
            r.size == size,
    {
        Rect { origin, size }
    }
}

impl<T: Scalar> Rect<T> {
    /// The far corner `origin + size` can be represented.
    pub open spec fn far_fits(self) -> bool {
        &&& T::fits(far_x(self@))
        &&& T::fits(far_y(self@))
    }

    /// The size of the intersection with `o` can be represented, where there is one.
    pub open spec fn intersection_fits(self, o: Rect<T>) -> bool {
        let i = rect_intersection(self@, o@);
        rect_intersects(self@, o@) ==> T::fits(i.size.width) && T::fits(i.size.height)
    }

    /// The size of the bounding box of `self` and `o` can be represented.
    pub open spec fn union_fits(self, o: Rect<T>) -> bool {
        let u = rect_union(self@, o@);
        T::fits(u.size.width) && T::fits(u.size.height)
    }

    /// Whether the two rectangles overlap; rectangles that only share an edge do not.
    pub fn intersects(&self, other: &Rect<T>) -> (r: bool)
        requires
            self.far_fits(),
            other.far_fits(),
        ensures
            r == rect_intersects(self@, other@),
    {
        self.origin.x.is_lt(&other.max_x()) && other.origin.x.is_lt(&self.max_x())
            && self.origin.y.is_lt(&other.max_y()) && other.origin.y.is_lt(&self.max_y())
    }

    pub fn max_x(&self) -> (r: T)
        requires
            T::fits(far_x(self@)),
        ensures
            r.as_int() == far_x(self@),
    {
        self.origin.x.plus(self.size.width)
    }

    pub fn min_x(&self) -> (r: T)
        ensures
            r == self.origin.x,
    {
        self.origin.x
    }

    pub fn max_y(&self) -> (r: T)
        requires
            T::fits(far_y(self@)),
        ensures
            r.as_int() == far_y(self@),
    {
        self.origin.y.plus(self.size.height)
    }

    pub fn min_y(&self) -> (r: T)
        ensures
            r == self.origin.y,
    {
        self.origin.y
    }

    /// The far corner, `origin + size`.
    pub fn max_point(&self) -> (r: Point2D<T>)
        requires
            self.far_fits(),
        ensures
            r@ == (Point2D { x: far_x(self@), y: far_y(self@) }),
    {
        Point2D { x: self.max_x(), y: self.max_y() }
    }

    /// The overlap of the two rectangles, or `None` where they do not intersect.
    pub fn intersection(&self, other: &Rect<T>) -> (r: Option<Rect<T>>)
        requires
            self.far_fits(),
            other.far_fits(),
            self.intersection_fits(*other),
        ensures
            r.is_some() == rect_intersects(self@, other@),
            r matches Some(i) ==> i@ == rect_intersection(self@, other@),
    {
        if !self.intersects(other) {
            return None;
        }
        let upper_left = Point2D {
            x: larger(self.min_x(), other.min_x()),
            y: larger(self.min_y(), other.min_y()),
        };
        let lower_right = Point2D {
            x: smaller(self.max_x(), other.max_x()),
            y: smaller(self.max_y(), other.max_y()),
        };
        Some(
            Rect {
                origin: upper_left,
                size: Size2D {
                    width: lower_right.x.minus(upper_left.x),
                    height: lower_right.y.minus(upper_left.y),
                },
            },
        )
    }

    /// The bounding box of the two rectangles, whether or not they intersect.
    pub fn union(&self, other: &Rect<T>) -> (r: Rect<T>)
        requires
            self.far_fits(),
            other.far_fits(),
            self.union_fits(*other),
        ensures
            r@ == rect_union(self@, other@),
    {
        let upper_left = Point2D {
            x: smaller(self.min_x(), other.min_x()),
            y: smaller(self.min_y(), other.min_y()),
        };
        let lower_right = Point2D {
            x: larger(self.max_x(), other.max_x()),
            y: larger(self.max_y(), other.max_y()),
        };
        Rect {
            origin: upper_left,
            size: Size2D {
                width: lower_right.x.minus(upper_left.x),
                height: lower_right.y.minus(upper_left.y),
            },
        }
    }

    /// The rectangle moved by `other`; its size is kept.
    pub fn translate(&self, other: &Point2D<T>) -> (r: Rect<T>)
        requires
            self.origin.add_fits(*other),
        ensures
            r@.origin == (Point2D { x: self@.origin.x + other@.x, y: self@.origin.y + other@.y }),
            r.size == self.size,
    {
        Rect { origin: self.origin.add(other), size: self.size }
    }

    /// Whether the point lies in the rectangle, counting the near edges in and the far
    /// edges out.
    pub fn contains(&self, other: &Point2D<T>) -> (r: bool)
        requires
            self.far_fits(),
        ensures
            r == rect_contains(self@, other@),
    {
        self.origin.x.is_le(&other.x) && other.x.is_lt(&self.max_x()) && self.origin.y.is_le(
            &other.y,
        ) && other.y.is_lt(&self.max_y())
    }

    /// The rectangle grown by `width` on the left and on the right, and by `height`
    /// at the top and at the bottom; negative amounts shrink it, with no clamping.
    pub fn inflate(&self, width: T, height: T) -> (r: Rect<T>)
        requires
            T::fits(self@.origin.x - width.as_int()),
            T::fits(self@.origin.y - height.as_int()),
            T::fits(self@.size.width + width.as_int()),
            T::fits(self@.size.height + height.as_int()),
            T::fits(self@.size.width + 2 * width.as_int()),
            T::fits(self@.size.height + 2 * height.as_int()),
        ensures
            r@ == (Rect {
                origin: Point2D {
                    x: self@.origin.x - width.as_int(),
                    y: self@.origin.y - height.as_int(),
                },
                size: Size2D {
                    width: self@.size.width + 2 * width.as_int(),
                    height: self@.size.height + 2 * height.as_int(),
                },
            }),
    {
        Rect {
            origin: Point2D { x: self.origin.x.minus(width), y: self.origin.y.minus(height) },
            size: Size2D {
                width: self.size.width.plus(width).plus(width),
                height: self.size.height.plus(height).plus(height),
            },
        }
    }

    /// Origin and size multiplied by `x` horizontally and by `y` vertically.
    pub fn scale(&self, x: T, y: T) -> (r: Rect<T>)
        requires
            T::fits(self@.origin.x * x.as_int()),
            T::fits(self@.origin.y * y.as_int()),
            T::fits(self@.size.width * x.as_int()),
            T::fits(self@.size.height * y.as_int()),
        ensures
            r@ == (Rect {
                origin: Point2D { x: self@.origin.x * x.as_int(), y: self@.origin.y * y.as_int() },
                size: Size2D {
                    width: self@.size.width * x.as_int(),
                    height: self@.size.height * y.as_int(),
                },
            }),
    {
        Rect {
            origin: Point2D { x: self.origin.x.times(x), y: self.origin.y.times(y) },
            size: Size2D { width: self.size.width.times(x), height: self.size.height.times(y) },
        }
    }
}

impl<T: Zero> Rect<T> {
    /// The rectangle of zero size at the origin.
    pub fn zero() -> (r: Rect<T>)
        ensures
            r@ == rect_from_corners(0, 0, 0, 0),
    {
        Rect { origin: Point2D::zero(), size: Size2D::zero() }
    }

    /// Whether the width or the height is zero.
    pub fn is_empty(&self) -> (r: bool)
        ensures
            r == (self@.size.width == 0 || self@.size.height == 0),
    {
        self.size.is_empty()
    }
}

impl<Unit, T> Rect<Length<Unit, T>> {
    /// The same rectangle with the unit dropped from each value.
    pub open spec fn spec_to_untyped(self) -> Rect<T> {
        Rect {
            origin: Point2D { x: self.origin.x.value, y: self.origin.y.value },
            size: Size2D { width: self.size.width.value, height: self.size.height.value },
        }
    }

    /// The same rectangle with each value tagged with the unit `Unit`.
    pub open spec fn spec_from_untyped(r: Rect<T>) -> Rect<Length<Unit, T>> {
        Rect {
            origin: Point2D {
                x: Length { value: r.origin.x, unit: core::marker::PhantomData },
                y: Length { value: r.origin.y, unit: core::marker::PhantomData },
            },
            size: Size2D {
                width: Length { value: r.size.width, unit: core::marker::PhantomData },
                height: Length { value: r.size.height, unit: core::marker::PhantomData },
            },
        }
    }
}

impl<Unit, T: Scalar> Rect<Length<Unit, T>> {
    /// Drops the unit, keeping the numeric values.
    pub fn to_untyped(&self) -> (r: Rect<T>)
        ensures
            r == self.spec_to_untyped(),
    {
        Rect { origin: self.origin.to_untyped(), size: self.size.to_untyped() }
    }

    /// Tags unitless values with the unit `Unit`.
    pub fn from_untyped(r: &Rect<T>) -> (t: Rect<Length<Unit, T>>)
        ensures
            t == Self::spec_from_untyped(*r),
    {
        Rect { origin: Point2D::from_untyped(&r.origin), size: Size2D::from_untyped(&r.size) }
    }

    /// Converts to another numeric type in the same unit, or gives `None` where one of
    /// the four values cannot be represented there.
    pub fn cast<D: Scalar>(&self) -> (r: Option<Rect<Length<Unit, D>>>)
        ensures
            r.is_some() == (D::fits(self@.origin.x) && D::fits(self@.origin.y) && D::fits(
                self@.size.width,
            ) && D::fits(self@.size.height)),
            r matches Some(c) ==> c@ == self@,
    {
        match (self.origin.cast::<D>(), self.size.cast::<D>()) {
            (Some(origin), Some(size)) => Some(Rect { origin, size }),
            _ => None,
        }
    }

    /// Converts to `usize` values in the same unit.
    pub fn as_uint(&self) -> (r: Rect<Length<Unit, usize>>)
        requires
            usize::fits(self@.origin.x),
            usize::fits(self@.origin.y),
            usize::fits(self@.size.width),
            usize::fits(self@.size.height),
        ensures
            r@ == self@,
    {
        self.cast::<usize>().unwrap()
    }
}

/// Two rectangles with the same integer view are the same value.
pub proof fn lemma_view_injective<T: Scalar>(a: Rect<T>, b: Rect<T>)
    requires
        a@ == b@,
    ensures
        a == b,
{
    T::lemma_injective(a.origin.x, b.origin.x);
    T::lemma_injective(a.origin.y, b.origin.y);
    T::lemma_injective(a.size.width, b.size.width);
    T::lemma_injective(a.size.height, b.size.height);
}

/// The union of a rectangle with itself is that rectangle.
pub proof fn lemma_union_idempotent<T: Scalar>(a: Rect<T>)
    ensures
        rect_union(a@, a@) == a@,
{
}

/// A rectangle of positive width and height intersects itself, and the intersection
/// is that rectangle.
pub proof fn lemma_intersection_idempotent<T: Scalar>(a: Rect<T>)
    requires
        a@.size.width > 0,
        a@.size.height > 0,
    ensures
        rect_intersects(a@, a@),
        rect_intersection(a@, a@) == a@,
{
}

/// Whether two rectangles intersect does not depend on their order, and neither does
/// their union.
pub proof fn lemma_symmetric<T: Scalar>(a: Rect<T>, b: Rect<T>)
    ensures
        rect_intersects(a@, b@) == rect_intersects(b@, a@),
        rect_union(a@, b@) == rect_union(b@, a@),
{
}

/// Dropping the unit and tagging the values with it again gives back the same
/// rectangle, and the other way round.
pub proof fn lemma_untyped_round_trip<Unit, T>(r: Rect<Length<Unit, T>>, u: Rect<T>)
    ensures
        Rect::<Length<Unit, T>>::spec_from_untyped(r.spec_to_untyped()) == r,
        Rect::<Length<Unit, T>>::spec_from_untyped(u).spec_to_untyped() == u,
{
}

/// The lesser of two values; `x` where they compare equal.
pub fn min<T: PartialOrd>(x: T, y: T) -> (r: T)
    ensures
        r == x || r == y,
        T::obeys_partial_cmp_spec() ==> (r == if x.partial_cmp_spec(&y) matches Some(
            core::cmp::Ordering::Less | core::cmp::Ordering::Equal,
        ) {
            x
        } else {
            y
        }),
{
    if x <= y {
        x
    } else {
        y
    }
}

/// The greater of two values; `x` where they compare equal.
pub fn max<T: PartialOrd>(x: T, y: T) -> (r: T)
    ensures
        r == x || r == y,
        T::obeys_partial_cmp_spec() ==> (r == if x.partial_cmp_spec(&y) matches Some(
            core::cmp::Ordering::Greater | core::cmp::Ordering::Equal,
        ) {
            x
        } else {
            y
        }),
{
    if x >= y {
        x
    } else {
        y
    }
}

} // verus!
