use vstd::prelude::*;

verus! {

/// A numeric type with exact integer semantics on which the geometry types are built.
///
/// Each value stands for the mathematical integer `as_int()`, and `fits` tells which
/// integers the type can represent. The arithmetic methods require the exact result to
/// be representable, so no operation ever wraps.
pub trait Scalar: Copy + Sized {
    spec fn as_int(self) -> int;

    spec fn fits(v: int) -> bool;

    /// Two values that stand for the same integer are the same value.
    proof fn lemma_injective(a: Self, b: Self)
        requires
            a.as_int() == b.as_int(),
        ensures
            a == b,
    ;

    fn plus(self, o: Self) -> (r: Self)
        requires
            Self::fits(self.as_int() + o.as_int()),
        ensures
            r.as_int() == self.as_int() + o.as_int(),
    ;

    fn minus(self, o: Self) -> (r: Self)
        requires
            Self::fits(self.as_int() - o.as_int()),
        ensures
            r.as_int() == self.as_int() - o.as_int(),
    ;

    fn times(self, o: Self) -> (r: Self)
        requires
            Self::fits(self.as_int() * o.as_int()),
        ensures
            r.as_int() == self.as_int() * o.as_int(),
    ;

    fn is_lt(&self, o: &Self) -> (r: bool)
        ensures
            r == (self.as_int() < o.as_int()),
    ;

    fn is_le(&self, o: &Self) -> (r: bool)
        ensures
            r == (self.as_int() <= o.as_int()),
    ;

    fn to_i128(self) -> (r: i128)
        ensures
            r as int == self.as_int(),
    ;

    /// The value that stands for `v`, if the type can represent it.
    fn from_i128(v: i128) -> (r: Option<Self>)
        ensures
            r.is_some() == Self::fits(v as int),
            r matches Some(x) ==> x.as_int() == v as int,
    ;
}

/// The additive identity.
pub trait Zero: Scalar {
    fn zero() -> (r: Self)
        ensures
            r.as_int() == 0,
    ;
}

/// The multiplicative identity.
pub trait One: Scalar {
    fn one() -> (r: Self)
        ensures
            r.as_int() == 1,
    ;
}

/// Rounding to the nearest whole value; every scalar here is already whole.
pub trait Round: Scalar {
    fn round(self) -> (r: Self)
        ensures
            r == self,
    ;
}

/// Rounding down; every scalar here is already whole.
pub trait Floor: Scalar {
    fn floor(self) -> (r: Self)
        ensures
            r == self,
    ;
}

/// Rounding up; every scalar here is already whole.
pub trait Ceil: Scalar {
    fn ceil(self) -> (r: Self)
        ensures
            r == self,
    ;
}

/// Equality up to the type's tolerance, which is zero for whole numbers.
pub trait ApproxEq: Scalar {
    fn approx_eq(&self, o: &Self) -> (r: bool)
        ensures
            r == (self.as_int() == o.as_int()),
    ;
}

impl<T: Scalar> Round for T {
    fn round(self) -> (r: T) {
        self
    }
}

impl<T: Scalar> Floor for T {
    fn floor(self) -> (r: T) {
        self
    }
}

impl<T: Scalar> Ceil for T {
    fn ceil(self) -> (r: T) {
        self
    }
}

impl<T: Scalar> ApproxEq for T {
    fn approx_eq(&self, o: &T) -> (r: bool) {
        self.is_le(o) && o.is_le(self)
    }
}

/// Converts between two scalar types, or gives `None` where the target type cannot
/// represent the value.
pub fn cast<S: Scalar, D: Scalar>(s: S) -> (r: Option<D>)
    ensures
        r.is_some() == D::fits(s.as_int()),
        r matches Some(d) ==> d.as_int() == s.as_int(),
{
    D::from_i128(s.to_i128())
}

/// A parameter that can be given either as a unit-tagged length or as a raw scalar.
pub trait ValueOrLength<T, U> {
    spec fn spec_value(self) -> T;

    fn value(self) -> (r: T)
        ensures
            r == self.spec_value(),
    ;
}

impl<T, U> ValueOrLength<T, U> for T {
    open spec fn spec_value(self) -> T {
        self
    }

    fn value(self) -> (r: T) {
        self
    }
}

/// A parameter that can be given either as a scale factor or as a raw scalar.
pub trait ValueOrScale<T, Src, Dst> {
    spec fn spec_value(self) -> T;

    fn value(self) -> (r: T)
        ensures
            r == self.spec_value(),
    ;
}

impl<T, Src, Dst> ValueOrScale<T, Src, Dst> for T {
    open spec fn spec_value(self) -> T {
        self
    }

    fn value(self) -> (r: T) {
        self
    }
}

impl Scalar for i16 {
    open spec fn as_int(self) -> int {
        self as int
    }

    open spec fn fits(v: int) -> bool {
        i16::MIN <= v <= i16::MAX
    }

    proof fn lemma_injective(a: Self, b: Self) {
    }

    fn plus(self, o: Self) -> (r: Self) {
        self + o
    }

    fn minus(self, o: Self) -> (r: Self) {
        self - o
    }

    fn times(self, o: Self) -> (r: Self) {
        self * o
    }

    fn is_lt(&self, o: &Self) -> (r: bool) {
        *self < *o
    }

    fn is_le(&self, o: &Self) -> (r: bool) {
        *self <= *o
    }

    fn to_i128(self) -> (r: i128) {
        self as i128
    }

    fn from_i128(v: i128) -> (r: Option<Self>) {
        if i16::MIN as i128 <= v && v <= i16::MAX as i128 {
            Some(v as i16)
        } else {
            None
        }
    }
}

impl Zero for i16 {
    fn zero() -> (r: Self) {
        0
    }
}

impl One for i16 {
    fn one() -> (r: Self) {
        1
    }
}

impl Scalar for u16 {
    open spec fn as_int(self) -> int {
        self as int
    }

    open spec fn fits(v: int) -> bool {
        u16::MIN <= v <= u16::MAX
    }

    proof fn lemma_injective(a: Self, b: Self) {
    }

    fn plus(self, o: Self) -> (r: Self) {
        self + o
    }

    fn minus(self, o: Self) -> (r: Self) {
        self - o
    }

    fn times(self, o: Self) -> (r: Self) {
        self * o
    }

    fn is_lt(&self, o: &Self) -> (r: bool) {
        *self < *o
    }

    fn is_le(&self, o: &Self) -> (r: bool) {
        *self <= *o
    }

    fn to_i128(self) -> (r: i128) {
        self as i128
    }

    fn from_i128(v: i128) -> (r: Option<Self>) {
        if u16::MIN as i128 <= v && v <= u16::MAX as i128 {
            Some(v as u16)
        } else {
            None
        }
    }
}

impl Zero for u16 {
    fn zero() -> (r: Self) {
        0
    }
}

impl One for u16 {
    fn one() -> (r: Self) {
        1
    }
}

impl Scalar for i32 {
    open spec fn as_int(self) -> int {
        self as int
    }

    open spec fn fits(v: int) -> bool {
        i32::MIN <= v <= i32::MAX
    }

    proof fn lemma_injective(a: Self, b: Self) {
    }

    fn plus(self, o: Self) -> (r: Self) {
        self + o
    }

    fn minus(self, o: Self) -> (r: Self) {
        self - o
    }

    fn times(self, o: Self) -> (r: Self) {
        self * o
    }

    fn is_lt(&self, o: &Self) -> (r: bool) {
        *self < *o
    }

    fn is_le(&self, o: &Self) -> (r: bool) {
        *self <= *o
    }

    fn to_i128(self) -> (r: i128) {
        self as i128
    }

    fn from_i128(v: i128) -> (r: Option<Self>) {
        if i32::MIN as i128 <= v && v <= i32::MAX as i128 {
            Some(v as i32)
        } else {
            None
        }
    }
}

impl Zero for i32 {
    fn zero() -> (r: Self) {
        0
    }
}

impl One for i32 {
    fn one() -> (r: Self) {
        1
    }
}

impl Scalar for u32 {
    open spec fn as_int(self) -> int {
        self as int
    }

    open spec fn fits(v: int) -> bool {
        u32::MIN <= v <= u32::MAX
    }

    proof fn lemma_injective(a: Self, b: Self) {
    }

    fn plus(self, o: Self) -> (r: Self) {
        self + o
    }

    fn minus(self, o: Self) -> (r: Self) {
        self - o
    }

    fn times(self, o: Self) -> (r: Self) {
        self * o
    }

    fn is_lt(&self, o: &Self) -> (r: bool) {
        *self < *o
    }

    fn is_le(&self, o: &Self) -> (r: bool) {
        *self <= *o
    }

    fn to_i128(self) -> (r: i128) {
        self as i128
    }

    fn from_i128(v: i128) -> (r: Option<Self>) {
        if u32::MIN as i128 <= v && v <= u32::MAX as i128 {
            Some(v as u32)
        } else {
            None
        }
    }
}

impl Zero for u32 {
    fn zero() -> (r: Self) {
        0
    }
}

impl One for u32 {
    fn one() -> (r: Self) {
        1
    }
}

impl Scalar for i64 {
    open spec fn as_int(self) -> int {
        self as int
    }

    open spec fn fits(v: int) -> bool {
        i64::MIN <= v <= i64::MAX
    }

    proof fn lemma_injective(a: Self, b: Self) {
    }

    fn plus(self, o: Self) -> (r: Self) {
        self + o
    }

    fn minus(self, o: Self) -> (r: Self) {
        self - o
    }

    fn times(self, o: Self) -> (r: Self) {
        self * o
    }

    fn is_lt(&self, o: &Self) -> (r: bool) {
        *self < *o
    }

    fn is_le(&self, o: &Self) -> (r: bool) {
        *self <= *o
    }

    fn to_i128(self) -> (r: i128) {
        self as i128
    }

    fn from_i128(v: i128) -> (r: Option<Self>) {
        if i64::MIN as i128 <= v && v <= i64::MAX as i128 {
            Some(v as i64)
        } else {
            None
        }
    }
}

impl Zero for i64 {
    fn zero() -> (r: Self) {
        0
    }
}

impl One for i64 {
    fn one() -> (r: Self) {
        1
    }
}

impl Scalar for u64 {
    open spec fn as_int(self) -> int {
        self as int
    }

    open spec fn fits(v: int) -> bool {
        u64::MIN <= v <= u64::MAX
    }

    proof fn lemma_injective(a: Self, b: Self) {
    }

    fn plus(self, o: Self) -> (r: Self) {
        self + o
    }

    fn minus(self, o: Self) -> (r: Self) {
        self - o
    }

    fn times(self, o: Self) -> (r: Self) {
        self * o
    }

    fn is_lt(&self, o: &Self) -> (r: bool) {
        *self < *o
    }

    fn is_le(&self, o: &Self) -> (r: bool) {
        *self <= *o
    }

    fn to_i128(self) -> (r: i128) {
        self as i128
    }

    fn from_i128(v: i128) -> (r: Option<Self>) {
        if u64::MIN as i128 <= v && v <= u64::MAX as i128 {
            Some(v as u64)
        } else {
            None
        }
    }
}

impl Zero for u64 {
    fn zero() -> (r: Self) {
        0
    }
}

impl One for u64 {
    fn one() -> (r: Self) {
        1
    }
}

impl Scalar for isize {
    open spec fn as_int(self) -> int {
        self as int
    }

    open spec fn fits(v: int) -> bool {
        isize::MIN <= v <= isize::MAX
    }

    proof fn lemma_injective(a: Self, b: Self) {
    }

    fn plus(self, o: Self) -> (r: Self) {
        self + o
    }

    fn minus(self, o: Self) -> (r: Self) {
        self - o
    }

    fn times(self, o: Self) -> (r: Self) {
        self * o
    }

    fn is_lt(&self, o: &Self) -> (r: bool) {
        *self < *o
    }

    fn is_le(&self, o: &Self) -> (r: bool) {
        *self <= *o
    }

    fn to_i128(self) -> (r: i128) {
        self as i128
    }

    fn from_i128(v: i128) -> (r: Option<Self>) {
        if isize::MIN as i128 <= v && v <= isize::MAX as i128 {
            Some(v as isize)
        } else {
            None
        }
    }
}

impl Zero for isize {
    fn zero() -> (r: Self) {
        0
    }
}

impl One for isize {
    fn one() -> (r: Self) {
        1
    }
}

impl Scalar for usize {
    open spec fn as_int(self) -> int {
        self as int
    }

    open spec fn fits(v: int) -> bool {
        usize::MIN <= v <= usize::MAX
    }

    proof fn lemma_injective(a: Self, b: Self) {
    }

    fn plus(self, o: Self) -> (r: Self) {
        self + o
    }

    fn minus(self, o: Self) -> (r: Self) {
        self - o
    }

    fn times(self, o: Self) -> (r: Self) {
        self * o
    }

    fn is_lt(&self, o: &Self) -> (r: bool) {
        *self < *o
    }

    fn is_le(&self, o: &Self) -> (r: bool) {
        *self <= *o
    }

    fn to_i128(self) -> (r: i128) {
        self as i128
    }

    fn from_i128(v: i128) -> (r: Option<Self>) {
        if usize::MIN as i128 <= v && v <= usize::MAX as i128 {
            Some(v as usize)
        } else {
            None
        }
    }
}

impl Zero for usize {
    fn zero() -> (r: Self) {
        0
    }
}

impl One for usize {
    fn one() -> (r: Self) {
        1
    }
}

} // verus!
