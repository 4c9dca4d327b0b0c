use vstd::prelude::*;

use core::marker::PhantomData;

use crate::num::{One, Scalar, Zero};

verus! {

/// A one-dimensional length tagged with its unit.
///
/// The unit is a marker type with no runtime representation; lengths of different
/// units cannot be combined without an explicit conversion.
#[derive(Debug, PartialEq, Eq)]
pub struct Length<Unit, T> {
    pub value: T,
    pub unit: PhantomData<Unit>,
}

impl<Unit, T: Copy> Clone for Length<Unit, T> {
    fn clone(&self) -> (r: Self)
        ensures
            r == *self,
    {
        *self
    }
}

impl<Unit, T: Copy> Copy for Length<Unit, T> {

}

impl<Unit, T> Length<Unit, T> {
    /// Wraps a raw scalar in the unit `Unit`.
    pub fn new(value: T) -> (r: Length<Unit, T>)
        ensures
            r.value == value,
    {
        Length { value, unit: PhantomData }
    }

    /// The raw scalar, without its unit.
    pub fn get(self) -> (r: T)
        ensures
            r == self.value,
    {
        self.value
    }
}

impl<Unit, T: Scalar> Length<Unit, T> {
    /// Multiplies the length by a bare scalar; the unit is kept.
    pub fn scale_by(self, k: T) -> (r: Length<Unit, T>)
        requires
            T::fits(self.value.as_int() * k.as_int()),
        ensures
            r.as_int() == self.as_int() * k.as_int(),
    {
        Length::new(self.value.times(k))
    }
}

impl<Unit, T: Scalar> Scalar for Length<Unit, T> {
    open spec fn as_int(self) -> int {
        self.value.as_int()
    }

    open spec fn fits(v: int) -> bool {
        T::fits(v)
    }

    proof fn lemma_injective(a: Self, b: Self) {
        T::lemma_injective(a.value, b.value);
    }

    fn plus(self, o: Self) -> (r: Self) {
        Length::new(self.value.plus(o.value))
    }

    fn minus(self, o: Self) -> (r: Self) {
        Length::new(self.value.minus(o.value))
    }

    fn times(self, o: Self) -> (r: Self) {
        Length::new(self.value.times(o.value))
    }

    fn is_lt(&self, o: &Self) -> (r: bool) {
        self.value.is_lt(&o.value)
    }

    fn is_le(&self, o: &Self) -> (r: bool) {
        self.value.is_le(&o.value)
    }

    fn to_i128(self) -> (r: i128) {
        self.value.to_i128()
    }

    fn from_i128(v: i128) -> (r: Option<Self>) {
        match T::from_i128(v) {
            Some(x) => Some(Length::new(x)),
            None => None,
        }
    }
}

impl<Unit, T: Zero> Zero for Length<Unit, T> {
    fn zero() -> (r: Self) {
        Length::new(T::zero())
    }
}

impl<Unit, T: One> One for Length<Unit, T> {
    fn one() -> (r: Self) {
        Length::new(T::one())
    }
}

} // verus!
