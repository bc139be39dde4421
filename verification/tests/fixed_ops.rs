//! Exact expected values for the fixed-point scalar and vector arithmetic.

use nbody::fixed::{fx_add, fx_div, fx_mul, fx_neg, fx_sub, MAX_RAW, SCALE};
use nbody::vec3::Vec3;

#[test]
fn add_and_sub_exact() {
    assert_eq!(fx_add(1_500_000_000, 250_000_000), 1_750_000_000);
    assert_eq!(fx_sub(1_500_000_000, 250_000_000), 1_250_000_000);
    assert_eq!(fx_add(-1_000_000_000, 400_000_000), -600_000_000);
}

#[test]
fn add_saturates_symmetrically() {
    assert_eq!(fx_add(MAX_RAW, 1), MAX_RAW);
    assert_eq!(fx_add(-MAX_RAW, -1), -MAX_RAW);
    assert_eq!(fx_sub(-MAX_RAW, MAX_RAW), -MAX_RAW);
}

#[test]
fn neg_is_total_and_symmetric() {
    assert_eq!(fx_neg(5), -5);
    assert_eq!(fx_neg(-MAX_RAW), MAX_RAW);
    // The one raw value outside the symmetric range clamps to its mirror.
    assert_eq!(fx_neg(i64::MIN), MAX_RAW);
}

#[test]
fn mul_rescales_and_truncates_toward_zero() {
    // 1.0 * 1.0 == 1.0
    assert_eq!(fx_mul(SCALE, SCALE), SCALE);
    // (3 raw) * 0.5 == 1.5 raw, truncated to 1; and symmetrically for -3.
    assert_eq!(fx_mul(3, SCALE / 2), 1);
    assert_eq!(fx_mul(-3, SCALE / 2), -1);
}

#[test]
fn div_rescales_and_truncates_toward_zero() {
    // 1.0 / 4.0 == 0.25
    assert_eq!(fx_div(SCALE, 4 * SCALE), 250_000_000);
    // 1.0 / 3.0 truncates.
    assert_eq!(fx_div(SCALE, 3 * SCALE), 333_333_333);
    assert_eq!(fx_div(-SCALE, 3 * SCALE), -333_333_333);
}

#[test]
fn vector_ops_componentwise() {
    let a = Vec3::new(SCALE, -2 * SCALE, 3);
    let b = Vec3::new(SCALE, SCALE, -3);
    let s = a.add(b);
    assert_eq!((s.x, s.y, s.z), (2 * SCALE, -SCALE, 0));
    let d = a.sub(b);
    assert_eq!((d.x, d.y, d.z), (0, -3 * SCALE, 6));
    let n = a.neg();
    assert_eq!((n.x, n.y, n.z), (-SCALE, 2 * SCALE, -3));
    let h = a.scale(SCALE / 2);
    assert_eq!((h.x, h.y, h.z), (SCALE / 2, -SCALE, 1));
}

#[test]
fn length_squared_exact() {
    // |(1, 2, -2)|^2 == 9 in simulation units.
    let v = Vec3::new(SCALE, 2 * SCALE, -2 * SCALE);
    assert_eq!(v.length_squared(), 9 * SCALE);
    // Tiny components underflow the fixed-point square to zero.
    assert_eq!(Vec3::new(3, 4, 5).length_squared(), 0);
}
