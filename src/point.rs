use vstd::prelude::*;

use crate::length::Length;
use crate::num::{cast, Scalar, Zero};

verus! {

/// A point in two dimensions.
#[derive(Clone, Copy, Debug, PartialEq, Eq)]
pub struct Point2D<T> {
    pub x: T,
    pub y: T,
}

/// Builds a two-dimensional point from its coordinates.
#[allow(non_snake_case)]
pub fn Point2D<T>(x: T, y: T) -> (r: Point2D<T>)
    ensures
        r.x == x,
        r.y == y,
{
    Point2D { x, y }
}

impl<T: Scalar> View for Point2D<T> {
    type V = Point2D<int>;

    open spec fn view(&self) -> Point2D<int> {
        Point2D { x: self.x.as_int(), y: self.y.as_int() }
    }
}

impl<T> Point2D<T> {
    pub fn new(x: T, y: T) -> (r: Point2D<T>)
        ensures
            r.x == x,
            r.y == y,
    {
        Point2D { x, y }
    }
}

impl<T: Scalar> Point2D<T> {
    /// Both coordinates of `self + o` can be represented.
    pub open spec fn add_fits(self, o: Point2D<T>) -> bool {
        &&& T::fits(self.x.as_int() + o.x.as_int())
        &&& T::fits(self.y.as_int() + o.y.as_int())
    }

    /// Componentwise sum.
    pub fn add(&self, o: &Point2D<T>) -> (r: Point2D<T>)
        requires
            self.add_fits(*o),
        ensures
            r@ == (Point2D { x: self@.x + o@.x, y: self@.y + o@.y }),
    {
        Point2D { x: self.x.plus(o.x), y: self.y.plus(o.y) }
    }

    /// Componentwise difference.
    pub fn sub(&self, o: &Point2D<T>) -> (r: Point2D<T>)
        requires
            T::fits(self.x.as_int() - o.x.as_int()),
            T::fits(self.y.as_int() - o.y.as_int()),
        ensures
            r@ == (Point2D { x: self@.x - o@.x, y: self@.y - o@.y }),
    {
        Point2D { x: self.x.minus(o.x), y: self.y.minus(o.y) }
    }

    /// Both coordinates multiplied by a scalar.
    pub fn scale_by(&self, k: T) -> (r: Point2D<T>)
        requires
            T::fits(self.x.as_int() * k.as_int()),
            T::fits(self.y.as_int() * k.as_int()),
        ensures
            r@ == (Point2D { x: self@.x * k.as_int(), y: self@.y * k.as_int() }),
    {
        Point2D { x: self.x.times(k), y: self.y.times(k) }
    }
}

impl<T: Zero> Point2D<T> {
    /// The origin.
    pub fn zero() -> (r: Point2D<T>)
        ensures
            r@ == (Point2D::<int> { x: 0, y: 0 }),
    {
        Point2D { x: T::zero(), y: T::zero() }
    }
}

impl<Unit, T: Scalar> Point2D<Length<Unit, T>> {
    /// Drops the unit, keeping the numeric values.
    pub fn to_untyped(&self) -> (r: Point2D<T>)
        ensures
            r.x == self.x.value,
            r.y == self.y.value,
    {
        Point2D { x: self.x.value, y: self.y.value }
    }

    /// Tags unitless values with the unit `Unit`.
    pub fn from_untyped(p: &Point2D<T>) -> (r: Point2D<Length<Unit, T>>)
        ensures
            r.x.value == p.x,
            r.y.value == p.y,
    {
        Point2D { x: Length::new(p.x), y: Length::new(p.y) }
    }

    /// Converts to another numeric type in the same unit, or gives `None` where a
    /// coordinate cannot be represented there.
    pub fn cast<D: Scalar>(&self) -> (r: Option<Point2D<Length<Unit, D>>>)
        ensures
            r.is_some() == (D::fits(self@.x) && D::fits(self@.y)),
            r matches Some(p) ==> p@ == self@,
    {
        match (cast::<T, D>(self.x.value), cast::<T, D>(self.y.value)) {
            (Some(x), Some(y)) => Some(Point2D { x: Length::new(x), y: Length::new(y) }),
            _ => None,
        }
    }
}

/// A point in three dimensions.
#[derive(Clone, Copy, Debug, PartialEq, Eq)]
pub struct Point3D<T> {
    pub x: T,
    pub y: T,
    pub z: T,
}

impl<T> Point3D<T> {
    pub fn new(x: T, y: T, z: T) -> (r: Point3D<T>)
        ensures
            r == (Point3D { x, y, z }),
    {
        Point3D { x, y, z }
    }
}

impl<T: Scalar> Point3D<T> {
    /// Componentwise sum.
    pub fn add(&self, o: &Point3D<T>) -> (r: Point3D<T>)
        requires
            T::fits(self.x.as_int() + o.x.as_int()),
            T::fits(self.y.as_int() + o.y.as_int()),
            T::fits(self.z.as_int() + o.z.as_int()),
        ensures
            r.x.as_int() == self.x.as_int() + o.x.as_int(),
            r.y.as_int() == self.y.as_int() + o.y.as_int(),
            r.z.as_int() == self.z.as_int() + o.z.as_int(),
    {
        Point3D { x: self.x.plus(o.x), y: self.y.plus(o.y), z: self.z.plus(o.z) }
    }

    /// Componentwise difference.
    pub fn sub(&self, o: &Point3D<T>) -> (r: Point3D<T>)
        requires
            T::fits(self.x.as_int() - o.x.as_int()),
            T::fits(self.y.as_int() - o.y.as_int()),
            T::fits(self.z.as_int() - o.z.as_int()),
        ensures
            r.x.as_int() == self.x.as_int() - o.x.as_int(),
            r.y.as_int() == self.y.as_int() - o.y.as_int(),
            r.z.as_int() == self.z.as_int() - o.z.as_int(),
    {
        Point3D { x: self.x.minus(o.x), y: self.y.minus(o.y), z: self.z.minus(o.z) }
    }
}

/// A point in homogeneous four-dimensional coordinates.
#[derive(Clone, Copy, Debug, PartialEq, Eq)]
pub struct Point4D<T> {
    pub x: T,
    pub y: T,
    pub z: T,
    pub w: T,
}

impl<T> Point4D<T> {
    pub fn new(x: T, y: T, z: T, w: T) -> (r: Point4D<T>)
        ensures
            r == (Point4D { x, y, z, w }),
    {
        Point4D { x, y, z, w }
    }
}

impl<T: Scalar> Point4D<T> {
    /// Componentwise sum.
    pub fn add(&self, o: &Point4D<T>) -> (r: Point4D<T>)
        requires
            T::fits(self.x.as_int() + o.x.as_int()),
            T::fits(self.y.as_int() + o.y.as_int()),
            T::fits(self.z.as_int() + o.z.as_int()),
            T::fits(self.w.as_int() + o.w.as_int()),
        ensures
            r.x.as_int() == self.x.as_int() + o.x.as_int(),
            r.y.as_int() == self.y.as_int() + o.y.as_int(),
            r.z.as_int() == self.z.as_int() + o.z.as_int(),
            r.w.as_int() == self.w.as_int() + o.w.as_int(),
    {
        Point4D {
            x: self.x.plus(o.x),
            y: self.y.plus(o.y),
            z: self.z.plus(o.z),
            w: self.w.plus(o.w),
        }
    }

    /// Componentwise difference.
    pub fn sub(&self, o: &Point4D<T>) -> (r: Point4D<T>)
        requires
            T::fits(self.x.as_int() - o.x.as_int()),
            T::fits(self.y.as_int() - o.y.as_int()),
            T::fits(self.z.as_int() - o.z.as_int()),
            T::fits(self.w.as_int() - o.w.as_int()),
        ensures
            r.x.as_int() == self.x.as_int() - o.x.as_int(),
            r.y.as_int() == self.y.as_int() - o.y.as_int(),
            r.z.as_int() == self.z.as_int() - o.z.as_int(),
            r.w.as_int() == self.w.as_int() - o.w.as_int(),
    {
        Point4D {
            x: self.x.minus(o.x),
            y: self.y.minus(o.y),
            z: self.z.minus(o.z),
            w: self.w.minus(o.w),
        }
    }
}

} // verus!
