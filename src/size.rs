use vstd::prelude::*;

use crate::length::Length;
use crate::num::{cast, Scalar, Zero};

verus! {

/// A width and a height.
#[derive(Clone, Copy, Debug, PartialEq, Eq)]
pub struct Size2D<T> {
    pub width: T,
    pub height: T,
}

/// Builds a size from its width and height.
#[allow(non_snake_case)]
pub fn Size2D<T>(width: T, height: T) -> (r: Size2D<T>)
    ensures
        r.width == width,
        r.height == height,
{
    Size2D { width, height }
}

impl<T: Scalar> View for Size2D<T> {
    type V = Size2D<int>;

    open spec fn view(&self) -> Size2D<int> {
        Size2D { width: self.width.as_int(), height: self.height.as_int() }
    }
}

impl<T> Size2D<T> {
    pub fn new(width: T, height: T) -> (r: Size2D<T>)
        ensures
            r.width == width,
            r.height == height,
    {
        Size2D { width, height }
    }
}

impl<T: Zero> Size2D<T> {
    /// The size with no width and no height.
    pub fn zero() -> (r: Size2D<T>)
        ensures
            r@ == (Size2D::<int> { width: 0, height: 0 }),
    {
        Size2D { width: T::zero(), height: T::zero() }
    }

    /// Whether the width or the height is zero.
    pub fn is_empty(&self) -> (r: bool)
        ensures
            r == (self@.width == 0 || self@.height == 0),
    {
        let z = T::zero();
        (self.width.is_le(&z) && z.is_le(&self.width)) || (self.height.is_le(&z) && z.is_le(
            &self.height,
        ))
    }
}

impl<Unit, T: Scalar> Size2D<Length<Unit, T>> {
    /// Drops the unit, keeping the numeric values.
    pub fn to_untyped(&self) -> (r: Size2D<T>)
        ensures
            r.width == self.width.value,
            r.height == self.height.value,
    {
        Size2D { width: self.width.value, height: self.height.value }
    }

    /// Tags unitless values with the unit `Unit`.
    pub fn from_untyped(s: &Size2D<T>) -> (r: Size2D<Length<Unit, T>>)
        ensures
            r.width.value == s.width,
            r.height.value == s.height,
    {
        Size2D { width: Length::new(s.width), height: Length::new(s.height) }
    }

    /// Converts to another numeric type in the same unit, or gives `None` where a
    /// component cannot be represented there.
    pub fn cast<D: Scalar>(&self) -> (r: Option<Size2D<Length<Unit, D>>>)
        ensures
            r.is_some() == (D::fits(self@.width) && D::fits(self@.height)),
            r matches Some(s) ==> s@ == self@,
    {
        match (cast::<T, D>(self.width.value), cast::<T, D>(self.height.value)) {
            (Some(w), Some(h)) => Some(Size2D { width: Length::new(w), height: Length::new(h) }),
            _ => None,
        }
    }
}

} // verus!
