use euclid::matrix::{identity, Matrix4};
use euclid::point::Point2D;

fn sample() -> Matrix4<i64> {
    Matrix4(1, 2, 3, 4, 5, 6, 7, 8, 9, 10, 11, 12, 13, 14, 15, 16)
}

#[test]
fn identity_is_neutral() {
    let m = sample();
    let i: Matrix4<i64> = identity();
    assert_eq!(i.mul(&m), m);
    assert_eq!(m.mul(&i), m);
}

#[test]
fn mul_is_the_row_by_column_product() {
    let a = sample();
    let b = Matrix4(2i64, 0, 0, 1, 0, 3, 0, 0, 0, 0, 1, 0, 4, 5, 0, 1);
    let ab = a.mul(&b);
    // Row 1 of a is (1, 2, 3, 4).
    assert_eq!((ab.m11, ab.m12, ab.m13, ab.m14), (1 * 2 + 4 * 4, 2 * 3 + 4 * 5, 3, 1 + 4));
    // Row 4 of a is (13, 14, 15, 16).
    assert_eq!((ab.m41, ab.m42, ab.m43, ab.m44), (26 + 64, 42 + 80, 15, 13 + 16));
    assert_ne!(ab, b.mul(&a));
}

#[test]
fn product_applies_left_operand_first() {
    let scale = Matrix4::create_scale(2i32, 3, 1);
    let shift = Matrix4::create_translation(10i32, 20, 0);
    let p = Point2D(1i32, 1i32);
    let composed = scale.mul(&shift).transform_point(&p);
    let stepwise = shift.transform_point(&scale.transform_point(&p));
    assert_eq!(composed, stepwise);
    assert_eq!(composed, Point2D(12, 23));
    assert_eq!(shift.mul(&scale).transform_point(&p), Point2D(22, 63));
}

#[test]
fn translation_moves_origin() {
    let m = Matrix4::create_translation(7i32, -4, 9);
    assert_eq!(m.transform_point(&Point2D(0, 0)), Point2D(7, -4));
    assert_eq!(m.to_array(), [1, 0, 0, 0, 0, 1, 0, 0, 0, 0, 1, 0, 7, -4, 9, 1]);
}

#[test]
fn translate_composes_after_self() {
    let s = Matrix4::create_scale(2i32, 2, 2);
    let t = s.translate(5, 6, 7);
    assert_eq!(t, s.mul(&Matrix4::create_translation(5, 6, 7)));
    assert_eq!(t.transform_point(&Point2D(1, 1)), Point2D(7, 8));
}

#[test]
fn create_scale_is_diagonal() {
    let m = Matrix4::create_scale(2u32, 3, 4);
    assert_eq!(m.to_array(), [2, 0, 0, 0, 0, 3, 0, 0, 0, 0, 4, 0, 0, 0, 0, 1]);
    assert_eq!(m.transform_point(&Point2D(5, 6)), Point2D(10, 18));
}

#[test]
fn mul_s_multiplies_every_entry() {
    let m = sample().mul_s(-2);
    assert_eq!(
        m.to_array(),
        [-2, -4, -6, -8, -10, -12, -14, -16, -18, -20, -22, -24, -26, -28, -30, -32]
    );
}

#[test]
fn scale_changes_only_the_diagonal() {
    let m = sample().scale(2, 3, 4);
    assert_eq!(m.to_array(), [2, 2, 3, 4, 5, 18, 7, 8, 9, 10, 44, 12, 13, 14, 15, 16]);
}

#[test]
fn approx_eq_is_exact_on_integers() {
    let m = sample();
    assert!(m.approx_eq(&sample()));
    let mut n = sample();
    n.m34 = 13;
    assert!(!m.approx_eq(&n));
}

#[test]
fn transform_point_uses_affine_part() {
    let m = Matrix4(2i32, 1, 99, 99, 3, 4, 99, 99, 99, 99, 99, 99, 5, 6, 99, 99);
    assert_eq!(m.transform_point(&Point2D(1, 2)), Point2D(1 * 2 + 2 * 3 + 5, 1 + 2 * 4 + 6));
}
