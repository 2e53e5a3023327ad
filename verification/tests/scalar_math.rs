use lissajou_tunnel::math::{Matrix4, V3D, V4D};
use lissajou_tunnel::scalar::{scalar_is_finite, scalar_neg, scalar_zero, Scalar, Single};

fn s(x: f64) -> Scalar {
    Scalar { bits: x.to_bits() }
}

fn f(x: Scalar) -> f64 {
    f64::from_bits(x.bits)
}

fn v3(x: f64, y: f64, z: f64) -> V3D {
    V3D { x: s(x), y: s(y), z: s(z) }
}

fn v4(x: f64, y: f64, z: f64, w: f64) -> V4D {
    V4D { x: s(x), y: s(y), z: s(z), w: s(w) }
}

#[test]
fn magnitude_matches_hardware() {
    let v = v3(3.0, 4.0, 12.0);
    let expected = (3.0f64 * 3.0 + 4.0 * 4.0 + 12.0 * 12.0).sqrt();
    assert_eq!(v.magnitude().bits, expected.to_bits());
    assert_eq!(f(v.magnitude()), 13.0);
}

#[test]
fn magnitude_irrational_matches_hardware() {
    let v = v3(0.1, -2.7, 31.9);
    let expected = (0.1f64 * 0.1 + (-2.7f64) * (-2.7) + 31.9f64 * 31.9).sqrt();
    assert_eq!(v.magnitude().bits, expected.to_bits());
}

#[test]
fn normalize_matches_hardware() {
    let v = v3(1.0, 2.0, -2.5);
    let mag = (1.0f64 * 1.0 + 2.0 * 2.0 + (-2.5f64) * (-2.5)).sqrt();
    let n = v.normalize();
    assert_eq!(n.x.bits, (1.0f64 / mag).to_bits());
    assert_eq!(n.y.bits, (2.0f64 / mag).to_bits());
    assert_eq!(n.z.bits, (-2.5f64 / mag).to_bits());
}

#[test]
fn normalize_zero_vector_is_identity() {
    let z = v3(0.0, 0.0, 0.0);
    let n = z.normalize();
    assert_eq!(n.x.bits, 0.0f64.to_bits());
    assert_eq!(n.y.bits, 0.0f64.to_bits());
    assert_eq!(n.z.bits, 0.0f64.to_bits());
    assert!(!f(n.x).is_nan() && !f(n.y).is_nan() && !f(n.z).is_nan());
}

#[test]
fn normalize_zero_vector_4d_is_identity() {
    let z = v4(0.0, 0.0, 0.0, 0.0);
    let n = z.normalize();
    assert_eq!(n.x.bits, 0.0f64.to_bits());
    assert_eq!(n.y.bits, 0.0f64.to_bits());
    assert_eq!(n.z.bits, 0.0f64.to_bits());
    assert_eq!(n.w.bits, 0.0f64.to_bits());
}

#[test]
fn cross_matches_hardware() {
    let a = v3(1.5, -2.0, 0.5);
    let b = v3(0.25, 4.0, -1.0);
    let c = a.cross(&b);
    assert_eq!(f(c.x), (-2.0f64) * (-1.0) - 0.5 * 4.0);
    assert_eq!(f(c.y), 0.5f64 * 0.25 - 1.5 * (-1.0));
    assert_eq!(f(c.z), 1.5f64 * 4.0 - (-2.0f64) * 0.25);
}

#[test]
fn cross_is_right_handed_on_axes() {
    let x = v3(1.0, 0.0, 0.0);
    let y = v3(0.0, 1.0, 0.0);
    let z = x.cross(&y);
    assert_eq!(f(z.x), 0.0);
    assert_eq!(f(z.y), 0.0);
    assert_eq!(f(z.z), 1.0);
}

#[test]
fn dot_matches_hardware() {
    let a = v3(1.5, -2.0, 0.5);
    let b = v3(0.25, 4.0, -1.0);
    let expected = 1.5f64 * 0.25 + (-2.0f64) * 4.0 + 0.5f64 * (-1.0);
    assert_eq!(a.dot(&b).bits, expected.to_bits());
}

#[test]
fn dot_4d_matches_hardware() {
    let a = v4(1.0, 2.0, 3.0, 4.0);
    let b = v4(-0.5, 0.25, 2.0, 1.5);
    let expected = 1.0f64 * (-0.5) + 2.0 * 0.25 + 3.0 * 2.0 + 4.0 * 1.5;
    assert_eq!(a.dot(&b).bits, expected.to_bits());
}

#[test]
fn transform_applies_affine_matrix() {
    // A translation by (10, 20, 30) plus a scale of 2 on each axis.
    let m: Matrix4 = [
        [s(2.0), s(0.0), s(0.0), s(10.0)],
        [s(0.0), s(2.0), s(0.0), s(20.0)],
        [s(0.0), s(0.0), s(2.0), s(30.0)],
        [s(0.0), s(0.0), s(0.0), s(1.0)],
    ];
    let p = v3(1.0, -2.0, 3.5);
    let q = p.transform(&m);
    assert_eq!(f(q.x), 2.0 * 1.0 + 10.0);
    assert_eq!(f(q.y), 2.0 * (-2.0) + 20.0);
    assert_eq!(f(q.z), 2.0 * 3.5 + 30.0);
}

#[test]
fn transform_general_matrix_matches_hardware() {
    let rows = [
        [0.1f64, -0.2, 0.3, 1.0],
        [0.5, 0.6, -0.7, 2.0],
        [-0.9, 1.1, 1.3, 3.0],
        [0.0, 0.0, 0.0, 1.0],
    ];
    let m: Matrix4 = [
        [s(rows[0][0]), s(rows[0][1]), s(rows[0][2]), s(rows[0][3])],
        [s(rows[1][0]), s(rows[1][1]), s(rows[1][2]), s(rows[1][3])],
        [s(rows[2][0]), s(rows[2][1]), s(rows[2][2]), s(rows[2][3])],
        [s(rows[3][0]), s(rows[3][1]), s(rows[3][2]), s(rows[3][3])],
    ];
    let p = v3(0.4, -1.5, 2.25);
    let q = p.transform(&m);
    for (axis, got) in [q.x, q.y, q.z].iter().enumerate() {
        let expected = rows[axis][0] * 0.4 + rows[axis][1] * (-1.5) + rows[axis][2] * 2.25
            + rows[axis][3];
        assert_eq!(got.bits, expected.to_bits());
    }
}

#[test]
fn scale_multiplies_componentwise() {
    let v = v3(1.0, -2.0, 3.0);
    let r = v.scale(s(2.5));
    assert_eq!(f(r.x), 2.5);
    assert_eq!(f(r.y), -5.0);
    assert_eq!(f(r.z), 7.5);
}

#[test]
fn magnitude_4d_matches_hardware() {
    let v = v4(1.0, 2.0, 2.0, 4.0);
    assert_eq!(f(v.magnitude()), 5.0);
}

#[test]
fn project_to_3d_is_stereographic() {
    let v = v4(1.0, 2.0, 3.0, 0.5);
    let p = v.project_to_3d();
    let scale = 1.0f64 / (1.0 - 0.5);
    assert_eq!(p.x.bits, (1.0f64 * scale).to_bits());
    assert_eq!(p.y.bits, (2.0f64 * scale).to_bits());
    assert_eq!(p.z.bits, (3.0f64 * scale).to_bits());
}

#[test]
fn scalar_struct_roundtrips_bits() {
    let x = -123.456f64;
    assert_eq!(f(s(x)), x);
    let single = Single { bits: 1.5f32.to_bits() };
    assert_eq!(f32::from_bits(single.bits), 1.5f32);
}

#[test]
fn finiteness_matches_hardware() {
    for x in [
        0.0f64,
        -0.0,
        1.5,
        -3.75e300,
        f64::MAX,
        f64::MIN_POSITIVE,
        f64::NAN,
        f64::INFINITY,
        f64::NEG_INFINITY,
    ] {
        assert_eq!(scalar_is_finite(s(x)), x.is_finite(), "finiteness of {}", x);
    }
    assert_eq!(f(scalar_neg(s(2.5))), -2.5);
    assert_eq!(scalar_neg(s(0.0)).bits, (-0.0f64).to_bits());
    assert_eq!(scalar_zero().bits, 0.0f64.to_bits());
}
