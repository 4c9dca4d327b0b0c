use vstd::prelude::*;

use crate::num::{ApproxEq, One, Scalar, Zero};
use crate::point::Point2D;

verus! {

/// A 4x4 homogeneous transform, stored row by row.
///
/// Points are row vectors multiplied on the left: the first two entries of the fourth
/// row hold a two-dimensional translation.
#[derive(Clone, Copy, Debug, PartialEq, Eq)]
pub struct Matrix4<T> {
    pub m11: T,
    pub m12: T,
    pub m13: T,
    pub m14: T,
    pub m21: T,
    pub m22: T,
    pub m23: T,
    pub m24: T,
    pub m31: T,
    pub m32: T,
    pub m33: T,
    pub m34: T,
    pub m41: T,
    pub m42: T,
    pub m43: T,
    pub m44: T,
}

/// Builds a matrix from its sixteen entries, row by row.
#[allow(non_snake_case)]
pub fn Matrix4<T>(
    m11: T,
    m12: T,
    m13: T,
    m14: T,
    m21: T,
    m22: T,
    m23: T,
    m24: T,
    m31: T,
    m32: T,
    m33: T,
    m34: T,
    m41: T,
    m42: T,
    m43: T,
    m44: T,
) -> (r: Matrix4<T>)
    ensures
        r.m11 == m11,
        r.m12 == m12,
        r.m13 == m13,
        r.m14 == m14,
        r.m21 == m21,
        r.m22 == m22,
        r.m23 == m23,
        r.m24 == m24,
        r.m31 == m31,
        r.m32 == m32,
        r.m33 == m33,
        r.m34 == m34,
        r.m41 == m41,
        r.m42 == m42,
        r.m43 == m43,
        r.m44 == m44,
{
    Matrix4 { m11, m12, m13, m14, m21, m22, m23, m24, m31, m32, m33, m34, m41, m42, m43, m44 }
}

impl<T: Scalar> View for Matrix4<T> {
    type V = Matrix4<int>;

    open spec fn view(&self) -> Matrix4<int> {
        Matrix4 {
            m11: self.m11.as_int(),
            m12: self.m12.as_int(),
            m13: self.m13.as_int(),
            m14: self.m14.as_int(),
            m21: self.m21.as_int(),
            m22: self.m22.as_int(),
            m23: self.m23.as_int(),
            m24: self.m24.as_int(),
            m31: self.m31.as_int(),
            m32: self.m32.as_int(),
            m33: self.m33.as_int(),
            m34: self.m34.as_int(),
            m41: self.m41.as_int(),
            m42: self.m42.as_int(),
            m43: self.m43.as_int(),
            m44: self.m44.as_int(),
        }
    }
}

/// The product `a * b`: the transform that applies `a`, then `b`.
pub open spec fn mat_mul(a: Matrix4<int>, b: Matrix4<int>) -> Matrix4<int> {
    Matrix4 {
        m11: a.m11 * b.m11 + a.m12 * b.m21 + a.m13 * b.m31 + a.m14 * b.m41,
        m12: a.m11 * b.m12 + a.m12 * b.m22 + a.m13 * b.m32 + a.m14 * b.m42,
        m13: a.m11 * b.m13 + a.m12 * b.m23 + a.m13 * b.m33 + a.m14 * b.m43,
        m14: a.m11 * b.m14 + a.m12 * b.m24 + a.m13 * b.m34 + a.m14 * b.m44,
        m21: a.m21 * b.m11 + a.m22 * b.m21 + a.m23 * b.m31 + a.m24 * b.m41,
        m22: a.m21 * b.m12 + a.m22 * b.m22 + a.m23 * b.m32 + a.m24 * b.m42,
        m23: a.m21 * b.m13 + a.m22 * b.m23 + a.m23 * b.m33 + a.m24 * b.m43,
        m24: a.m21 * b.m14 + a.m22 * b.m24 + a.m23 * b.m34 + a.m24 * b.m44,
        m31: a.m31 * b.m11 + a.m32 * b.m21 + a.m33 * b.m31 + a.m34 * b.m41,
        m32: a.m31 * b.m12 + a.m32 * b.m22 + a.m33 * b.m32 + a.m34 * b.m42,
        m33: a.m31 * b.m13 + a.m32 * b.m23 + a.m33 * b.m33 + a.m34 * b.m43,
        m34: a.m31 * b.m14 + a.m32 * b.m24 + a.m33 * b.m34 + a.m34 * b.m44,
        m41: a.m41 * b.m11 + a.m42 * b.m21 + a.m43 * b.m31 + a.m44 * b.m41,
        m42: a.m41 * b.m12 + a.m42 * b.m22 + a.m43 * b.m32 + a.m44 * b.m42,
        m43: a.m41 * b.m13 + a.m42 * b.m23 + a.m43 * b.m33 + a.m44 * b.m43,
        m44: a.m41 * b.m14 + a.m42 * b.m24 + a.m43 * b.m34 + a.m44 * b.m44,
    }
}

/// Each product and each partial sum of `a0 * b0 + a1 * b1 + a2 * b2 + a3 * b3`, summed
/// from the left, can be represented in `T`.
pub open spec fn dot_fits<T: Scalar>(
    a0: int,
    a1: int,
    a2: int,
    a3: int,
    b0: int,
    b1: int,
    b2: int,
    b3: int,
) -> bool {
    &&& T::fits(a0 * b0)
    &&& T::fits(a1 * b1)
    &&& T::fits(a2 * b2)
    &&& T::fits(a3 * b3)
    &&& T::fits(a0 * b0 + a1 * b1)
    &&& T::fits(a0 * b0 + a1 * b1 + a2 * b2)
    &&& T::fits(a0 * b0 + a1 * b1 + a2 * b2 + a3 * b3)
}

/// Every entry of `a * b` can be computed in `T` without overflow.
pub open spec fn mul_fits<T: Scalar>(a: Matrix4<int>, b: Matrix4<int>) -> bool {
    &&& dot_fits::<T>(a.m11, a.m12, a.m13, a.m14, b.m11, b.m21, b.m31, b.m41)
    &&& dot_fits::<T>(a.m11, a.m12, a.m13, a.m14, b.m12, b.m22, b.m32, b.m42)
    &&& dot_fits::<T>(a.m11, a.m12, a.m13, a.m14, b.m13, b.m23, b.m33, b.m43)
    &&& dot_fits::<T>(a.m11, a.m12, a.m13, a.m14, b.m14, b.m24, b.m34, b.m44)
    &&& dot_fits::<T>(a.m21, a.m22, a.m23, a.m24, b.m11, b.m21, b.m31, b.m41)
    &&& dot_fits::<T>(a.m21, a.m22, a.m23, a.m24, b.m12, b.m22, b.m32, b.m42)
    &&& dot_fits::<T>(a.m21, a.m22, a.m23, a.m24, b.m13, b.m23, b.m33, b.m43)
    &&& dot_fits::<T>(a.m21, a.m22, a.m23, a.m24, b.m14, b.m24, b.m34, b.m44)
    &&& dot_fits::<T>(a.m31, a.m32, a.m33, a.m34, b.m11, b.m21, b.m31, b.m41)
    &&& dot_fits::<T>(a.m31, a.m32, a.m33, a.m34, b.m12, b.m22, b.m32, b.m42)
    &&& dot_fits::<T>(a.m31, a.m32, a.m33, a.m34, b.m13, b.m23, b.m33, b.m43)
    &&& dot_fits::<T>(a.m31, a.m32, a.m33, a.m34, b.m14, b.m24, b.m34, b.m44)
    &&& dot_fits::<T>(a.m41, a.m42, a.m43, a.m44, b.m11, b.m21, b.m31, b.m41)
    &&& dot_fits::<T>(a.m41, a.m42, a.m43, a.m44, b.m12, b.m22, b.m32, b.m42)
    &&& dot_fits::<T>(a.m41, a.m42, a.m43, a.m44, b.m13, b.m23, b.m33, b.m43)
    &&& dot_fits::<T>(a.m41, a.m42, a.m43, a.m44, b.m14, b.m24, b.m34, b.m44)
}

pub open spec fn mat_identity() -> Matrix4<int> {
    Matrix4 {
        m11: 1,
        m12: 0,
        m13: 0,
        m14: 0,
        m21: 0,
        m22: 1,
        m23: 0,
        m24: 0,
        m31: 0,
        m32: 0,
        m33: 1,
        m34: 0,
        m41: 0,
        m42: 0,
        m43: 0,
        m44: 1,
    }
}

/// The translation by `(x, y, z)`: the identity with `(x, y, z, 1)` as its fourth row.
pub open spec fn mat_translation(x: int, y: int, z: int) -> Matrix4<int> {
    Matrix4 {
        m11: 1,
        m12: 0,
        m13: 0,
        m14: 0,
        m21: 0,
        m22: 1,
        m23: 0,
        m24: 0,
        m31: 0,
        m32: 0,
        m33: 1,
        m34: 0,
        m41: x,
        m42: y,
        m43: z,
        m44: 1,
    }
}

/// The scaling by `(x, y, z)`: the diagonal matrix `(x, y, z, 1)`.
pub open spec fn mat_scaling(x: int, y: int, z: int) -> Matrix4<int> {
    Matrix4 {
        m11: x,
        m12: 0,
        m13: 0,
        m14: 0,
        m21: 0,
        m22: y,
        m23: 0,
        m24: 0,
        m31: 0,
        m32: 0,
        m33: z,
        m34: 0,
        m41: 0,
        m42: 0,
        m43: 0,
        m44: 1,
    }
}

/// The two-dimensional affine part of `m` applied to `p`.
pub open spec fn mat_transform(m: Matrix4<int>, p: Point2D<int>) -> Point2D<int> {
    Point2D { x: p.x * m.m11 + p.y * m.m21 + m.m41, y: p.x * m.m12 + p.y * m.m22 + m.m42 }
}

fn dot<T: Scalar>(a0: T, a1: T, a2: T, a3: T, b0: T, b1: T, b2: T, b3: T) -> (r: T)
    requires
        dot_fits::<T>(
            a0.as_int(),
            a1.as_int(),
            a2.as_int(),
            a3.as_int(),
            b0.as_int(),
            b1.as_int(),
            b2.as_int(),
            b3.as_int(),
        ),
    ensures
        r.as_int() == a0.as_int() * b0.as_int() + a1.as_int() * b1.as_int() + a2.as_int()
            * b2.as_int() + a3.as_int() * b3.as_int(),
{
    a0.times(b0).plus(a1.times(b1)).plus(a2.times(b2)).plus(a3.times(b3))
}

impl<T: Scalar> Matrix4<T> {
    /// Whether every entry equals the matching entry of `other` up to the scalar's
    /// tolerance, which is zero for whole numbers.
    pub fn approx_eq(&self, other: &Matrix4<T>) -> (r: bool)
        ensures
            r == (self@ == other@),
    {
        self.m11.approx_eq(&other.m11) && self.m12.approx_eq(&other.m12) && self.m13.approx_eq(&other.m13) && self.m14.approx_eq(&other.m14) && self.m21.approx_eq(&other.m21) && self.m22.approx_eq(&other.m22) && self.m23.approx_eq(&other.m23) && self.m24.approx_eq(&other.m24) && self.m31.approx_eq(&other.m31) && self.m32.approx_eq(&other.m32) && self.m33.approx_eq(&other.m33) && self.m34.approx_eq(&other.m34) && self.m41.approx_eq(&other.m41) && self.m42.approx_eq(&other.m42) && self.m43.approx_eq(&other.m43) && self.m44.approx_eq(&other.m44)
    }

    /// The transform that applies `self`, then `m`.
    pub fn mul(&self, m: &Matrix4<T>) -> (r: Matrix4<T>)
        requires
            mul_fits::<T>(self@, m@),
        ensures
            r@ == mat_mul(self@, m@),
    {
        Matrix4 {
            m11: dot(self.m11, self.m12, self.m13, self.m14, m.m11, m.m21, m.m31, m.m41),
            m12: dot(self.m11, self.m12, self.m13, self.m14, m.m12, m.m22, m.m32, m.m42),
            m13: dot(self.m11, self.m12, self.m13, self.m14, m.m13, m.m23, m.m33, m.m43),
            m14: dot(self.m11, self.m12, self.m13, self.m14, m.m14, m.m24, m.m34, m.m44),
            m21: dot(self.m21, self.m22, self.m23, self.m24, m.m11, m.m21, m.m31, m.m41),
            m22: dot(self.m21, self.m22, self.m23, self.m24, m.m12, m.m22, m.m32, m.m42),
            m23: dot(self.m21, self.m22, self.m23, self.m24, m.m13, m.m23, m.m33, m.m43),
            m24: dot(self.m21, self.m22, self.m23, self.m24, m.m14, m.m24, m.m34, m.m44),
            m31: dot(self.m31, self.m32, self.m33, self.m34, m.m11, m.m21, m.m31, m.m41),
            m32: dot(self.m31, self.m32, self.m33, self.m34, m.m12, m.m22, m.m32, m.m42),
            m33: dot(self.m31, self.m32, self.m33, self.m34, m.m13, m.m23, m.m33, m.m43),
            m34: dot(self.m31, self.m32, self.m33, self.m34, m.m14, m.m24, m.m34, m.m44),
            m41: dot(self.m41, self.m42, self.m43, self.m44, m.m11, m.m21, m.m31, m.m41),
            m42: dot(self.m41, self.m42, self.m43, self.m44, m.m12, m.m22, m.m32, m.m42),
            m43: dot(self.m41, self.m42, self.m43, self.m44, m.m13, m.m23, m.m33, m.m43),
            m44: dot(self.m41, self.m42, self.m43, self.m44, m.m14, m.m24, m.m34, m.m44),
        }
    }

    /// Every entry multiplied by `x`.
    pub fn mul_s(&self, x: T) -> (r: Matrix4<T>)
        requires
            T::fits(self@.m11 * x.as_int()),
            T::fits(self@.m12 * x.as_int()),
            T::fits(self@.m13 * x.as_int()),
            T::fits(self@.m14 * x.as_int()),
            T::fits(self@.m21 * x.as_int()),
            T::fits(self@.m22 * x.as_int()),
            T::fits(self@.m23 * x.as_int()),
            T::fits(self@.m24 * x.as_int()),
            T::fits(self@.m31 * x.as_int()),
            T::fits(self@.m32 * x.as_int()),
            T::fits(self@.m33 * x.as_int()),
            T::fits(self@.m34 * x.as_int()),
            T::fits(self@.m41 * x.as_int()),
            T::fits(self@.m42 * x.as_int()),
            T::fits(self@.m43 * x.as_int()),
            T::fits(self@.m44 * x.as_int()),
        ensures
            r@.m11 == self@.m11 * x.as_int(),
            r@.m12 == self@.m12 * x.as_int(),
            r@.m13 == self@.m13 * x.as_int(),
            r@.m14 == self@.m14 * x.as_int(),
            r@.m21 == self@.m21 * x.as_int(),
            r@.m22 == self@.m22 * x.as_int(),
            r@.m23 == self@.m23 * x.as_int(),
            r@.m24 == self@.m24 * x.as_int(),
            r@.m31 == self@.m31 * x.as_int(),
            r@.m32 == self@.m32 * x.as_int(),
            r@.m33 == self@.m33 * x.as_int(),
            r@.m34 == self@.m34 * x.as_int(),
            r@.m41 == self@.m41 * x.as_int(),
            r@.m42 == self@.m42 * x.as_int(),
            r@.m43 == self@.m43 * x.as_int(),
            r@.m44 == self@.m44 * x.as_int(),
    {
        Matrix4 {
            m11: self.m11.times(x),
            m12: self.m12.times(x),
            m13: self.m13.times(x),
            m14: self.m14.times(x),
            m21: self.m21.times(x),
            m22: self.m22.times(x),
            m23: self.m23.times(x),
            m24: self.m24.times(x),
            m31: self.m31.times(x),
            m32: self.m32.times(x),
            m33: self.m33.times(x),
            m34: self.m34.times(x),
            m41: self.m41.times(x),
            m42: self.m42.times(x),
            m43: self.m43.times(x),
            m44: self.m44.times(x),
        }
    }

    /// The diagonal entries `m11`, `m22` and `m33` multiplied by `x`, `y` and `z`; the
    /// other entries are kept.
    pub fn scale(&self, x: T, y: T, z: T) -> (r: Matrix4<T>)
        requires
            T::fits(self@.m11 * x.as_int()),
            T::fits(self@.m22 * y.as_int()),
            T::fits(self@.m33 * z.as_int()),
        ensures
            r@ == (Matrix4 {
                m11: self@.m11 * x.as_int(),
                m22: self@.m22 * y.as_int(),
                m33: self@.m33 * z.as_int(),
                ..self@
            }),
    {
        Matrix4 { m11: self.m11.times(x), m22: self.m22.times(y), m33: self.m33.times(z), ..*self }
    }

    /// The two-dimensional affine part of this matrix, applied to `p`.
    pub fn transform_point(&self, p: &Point2D<T>) -> (r: Point2D<T>)
        requires
            T::fits(p@.x * self@.m11),
            T::fits(p@.y * self@.m21),
            T::fits(p@.x * self@.m11 + p@.y * self@.m21),
            T::fits(p@.x * self@.m11 + p@.y * self@.m21 + self@.m41),
            T::fits(p@.x * self@.m12),
            T::fits(p@.y * self@.m22),
            T::fits(p@.x * self@.m12 + p@.y * self@.m22),
            T::fits(p@.x * self@.m12 + p@.y * self@.m22 + self@.m42),
        ensures
            r@ == mat_transform(self@, p@),
    {
        Point2D {
            x: p.x.times(self.m11).plus(p.y.times(self.m21)).plus(self.m41),
            y: p.x.times(self.m12).plus(p.y.times(self.m22)).plus(self.m42),
        }
    }

    /// The sixteen entries, row by row.
    pub fn to_array(&self) -> (r: [T; 16])
        ensures
            r@ == seq![self.m11, self.m12, self.m13, self.m14, self.m21, self.m22, self.m23, self.m24, self.m31, self.m32, self.m33, self.m34, self.m41, self.m42, self.m43, self.m44],
    {
        [self.m11, self.m12, self.m13, self.m14, self.m21, self.m22, self.m23, self.m24, self.m31, self.m32, self.m33, self.m34, self.m41, self.m42, self.m43, self.m44]
    }
}

impl<T: Zero + One> Matrix4<T> {
    /// The transform that applies `self`, then the translation by `(x, y, z)`.
    pub fn translate(&self, x: T, y: T, z: T) -> (r: Matrix4<T>)
        requires
            mul_fits::<T>(self@, mat_translation(x.as_int(), y.as_int(), z.as_int())),
        ensures
            r@ == mat_mul(self@, mat_translation(x.as_int(), y.as_int(), z.as_int())),
    {
        let matrix = Self::create_translation(x, y, z);
        self.mul(&matrix)
    }

    /// The translation by `(x, y, z)`.
    pub fn create_translation(x: T, y: T, z: T) -> (r: Matrix4<T>)
        ensures
            r@ == mat_translation(x.as_int(), y.as_int(), z.as_int()),
    {
        let (o, i): (T, T) = (T::zero(), T::one());
        Matrix4(i, o, o, o, o, i, o, o, o, o, i, o, x, y, z, i)
    }

    /// The scaling by `(x, y, z)`.
    pub fn create_scale(x: T, y: T, z: T) -> (r: Matrix4<T>)
        ensures
            r@ == mat_scaling(x.as_int(), y.as_int(), z.as_int()),
    {
        let (o, i): (T, T) = (T::zero(), T::one());
        Matrix4(x, o, o, o, o, y, o, o, o, o, z, o, o, o, o, i)
    }
}

/// The identity transform.
pub fn identity<T: Zero + One>() -> (r: Matrix4<T>)
    ensures
        r@ == mat_identity(),
{
    let (o, i): (T, T) = (T::zero(), T::one());
    Matrix4(i, o, o, o, o, i, o, o, o, o, i, o, o, o, o, i)
}

/// Two matrices with the same integer view are the same value.
pub proof fn lemma_view_injective<T: Scalar>(a: Matrix4<T>, b: Matrix4<T>)
    requires
        a@ == b@,
    ensures
        a == b,
{
    T::lemma_injective(a.m11, b.m11);
    T::lemma_injective(a.m12, b.m12);
    T::lemma_injective(a.m13, b.m13);
    T::lemma_injective(a.m14, b.m14);
    T::lemma_injective(a.m21, b.m21);
    T::lemma_injective(a.m22, b.m22);
    T::lemma_injective(a.m23, b.m23);
    T::lemma_injective(a.m24, b.m24);
    T::lemma_injective(a.m31, b.m31);
    T::lemma_injective(a.m32, b.m32);
    T::lemma_injective(a.m33, b.m33);
    T::lemma_injective(a.m34, b.m34);
    T::lemma_injective(a.m41, b.m41);
    T::lemma_injective(a.m42, b.m42);
    T::lemma_injective(a.m43, b.m43);
    T::lemma_injective(a.m44, b.m44);
}

/// The identity is neutral on both sides of the product.
pub proof fn lemma_identity_neutral<T: Scalar>(m: Matrix4<T>)
    ensures
        mat_mul(mat_identity(), m@) == m@,
        mat_mul(m@, mat_identity()) == m@,
{
}

/// Applying the product `m * n` to a point is applying `m`, then `n`, where what
/// `transform_point` leaves out of `m` (its third and fourth columns) is that of a
/// plane transform, or where `n` takes nothing from the third and fourth coordinates.
pub proof fn lemma_mul_then_transform<T: Scalar>(m: Matrix4<T>, n: Matrix4<T>, p: Point2D<T>)
    requires
        (m@.m13 == 0 && m@.m23 == 0 && m@.m43 == 0 && m@.m14 == 0 && m@.m24 == 0 && m@.m44 == 1)
            || (n@.m31 == 0 && n@.m32 == 0 && n@.m41 == 0 && n@.m42 == 0),
    ensures
        mat_transform(mat_mul(m@, n@), p@) == mat_transform(n@, mat_transform(m@, p@)),
{
    let (a, b, x, y) = (m@, n@, p@.x, p@.y);
    lemma_column_transform(x, y, a, b.m11, b.m21, b.m31, b.m41);
    lemma_column_transform(x, y, a, b.m12, b.m22, b.m32, b.m42);
}

proof fn lemma_distribute4(x: int, p: int, q: int, r: int, s: int) by (nonlinear_arith)
    ensures
        x * (p + q + r + s) == x * p + x * q + x * r + x * s,
{
}

proof fn lemma_distribute_row(x: int, y: int, a1: int, a2: int, a4: int, b: int) by (
    nonlinear_arith)
    ensures
        (x * a1 + y * a2 + a4) * b == x * (a1 * b) + y * (a2 * b) + a4 * b,
{
}

proof fn lemma_vanishing_tail(
    x: int,
    y: int,
    a13: int,
    a23: int,
    a43: int,
    a14: int,
    a24: int,
    a44: int,
    b3: int,
    b4: int,
)
    requires
        (a13 == 0 && a23 == 0 && a43 == 0 && a14 == 0 && a24 == 0 && a44 == 1) || (b3 == 0 && b4
            == 0),
    ensures
        x * (a13 * b3) + y * (a23 * b3) + a43 * b3 + x * (a14 * b4) + y * (a24 * b4) + a44 * b4
            == b4,
{
    if b3 == 0 && b4 == 0 {
        assert(a13 * b3 == 0 && a23 * b3 == 0 && a43 * b3 == 0) by (nonlinear_arith)
            requires
                b3 == 0,
        ;
        assert(a14 * b4 == 0 && a24 * b4 == 0 && a44 * b4 == 0) by (nonlinear_arith)
            requires
                b4 == 0,
        ;
        assert(x * 0 == 0 && y * 0 == 0) by (nonlinear_arith);
    } else {
        assert(a13 * b3 == 0 && a23 * b3 == 0 && a14 * b4 == 0 && a24 * b4 == 0) by (
        nonlinear_arith)
            requires
                a13 == 0 && a23 == 0 && a14 == 0 && a24 == 0,
        ;
        assert(x * 0 == 0 && y * 0 == 0) by (nonlinear_arith);
    }
}

/// One coordinate of the point `(x, y)` under `a`, then under the column `b1..b4`,
/// against the same column of the product.
proof fn lemma_column_transform(
    x: int,
    y: int,
    a: Matrix4<int>,
    b1: int,
    b2: int,
    b3: int,
    b4: int,
)
    requires
        (a.m13 == 0 && a.m23 == 0 && a.m43 == 0 && a.m14 == 0 && a.m24 == 0 && a.m44 == 1) || (b3
            == 0 && b4 == 0),
    ensures
        x * (a.m11 * b1 + a.m12 * b2 + a.m13 * b3 + a.m14 * b4) + y * (a.m21 * b1 + a.m22 * b2
            + a.m23 * b3 + a.m24 * b4) + (a.m41 * b1 + a.m42 * b2 + a.m43 * b3 + a.m44 * b4) == (x
            * a.m11 + y * a.m21 + a.m41) * b1 + (x * a.m12 + y * a.m22 + a.m42) * b2 + b4,
{
    lemma_distribute4(x, a.m11 * b1, a.m12 * b2, a.m13 * b3, a.m14 * b4);
    lemma_distribute4(y, a.m21 * b1, a.m22 * b2, a.m23 * b3, a.m24 * b4);
    lemma_distribute_row(x, y, a.m11, a.m21, a.m41, b1);
    lemma_distribute_row(x, y, a.m12, a.m22, a.m42, b2);
    lemma_vanishing_tail(x, y, a.m13, a.m23, a.m43, a.m14, a.m24, a.m44, b3, b4);
}

/// The translation by `(x, y, z)` moves the origin to `(x, y)`.
pub proof fn lemma_translation_of_origin(x: int, y: int, z: int)
    ensures
        mat_transform(mat_translation(x, y, z), Point2D { x: 0, y: 0 }) == (Point2D { x, y }),
{
}

} // verus!
