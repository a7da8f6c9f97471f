use mirage::fixed::{fp_clamp, fp_div, fp_mul, isqrt, FP_MAX, FP_ONE};
use mirage::linalg::{identity_quat, q_mul, q_normsq, q_stabilize, Quat};

#[test]
fn isqrt_values() {
    assert_eq!(isqrt(0), 0);
    assert_eq!(isqrt(1), 1);
    assert_eq!(isqrt(15), 3);
    assert_eq!(isqrt(16), 4);
    assert_eq!(isqrt(4294967296), 65536);
    assert_eq!(isqrt(u64::MAX), 4294967295);
}

#[test]
fn multiplication_rounds_toward_zero() {
    // 1.5 * 2 = 3.
    assert_eq!(fp_mul(3 * FP_ONE / 2, 2 * FP_ONE), 3 * FP_ONE);
    // Tiny magnitudes truncate toward zero from either sign.
    assert_eq!(fp_mul(1, 1), 0);
    assert_eq!(fp_mul(-1, 1), 0);
    assert_eq!(fp_mul(-3 * FP_ONE / 2, FP_ONE), -3 * FP_ONE / 2);
}

#[test]
fn division_rounds_toward_zero() {
    // 1 / 3 in fixed point.
    assert_eq!(fp_div(FP_ONE, 3 * FP_ONE), 21845);
    assert_eq!(fp_div(-FP_ONE, 3 * FP_ONE), -21845);
    assert_eq!(fp_div(FP_ONE, FP_ONE), FP_ONE);
}

#[test]
fn clamp_saturates() {
    assert_eq!(fp_clamp(2 * FP_MAX, -FP_MAX, FP_MAX), FP_MAX);
    assert_eq!(fp_clamp(-2 * FP_MAX, -FP_MAX, FP_MAX), -FP_MAX);
    assert_eq!(fp_clamp(7, -FP_MAX, FP_MAX), 7);
}

#[test]
fn quaternion_identity_is_neutral() {
    let i = identity_quat();
    let q = Quat { w: 0, x: 0, y: FP_ONE, z: 0 };
    assert_eq!(q_mul(&i, &q), q);
    assert_eq!(q_mul(&q, &i), q);
    assert_eq!(q_normsq(&q), FP_ONE * FP_ONE);
}

#[test]
fn stabilize_keeps_in_band_and_fixes_scale() {
    // An in-band quaternion passes through unchanged.
    let q = Quat { w: 0, x: 0, y: FP_ONE, z: 0 };
    assert_eq!(q_stabilize(&q), q);
    // A quaternion at half scale is rescaled to unit norm.
    let small = Quat { w: FP_ONE / 2, x: 0, y: 0, z: 0 };
    assert_eq!(q_stabilize(&small), Quat { w: FP_ONE, x: 0, y: 0, z: 0 });
    // The zero quaternion falls back to the identity.
    let zero = Quat { w: 0, x: 0, y: 0, z: 0 };
    assert_eq!(q_stabilize(&zero), Quat { w: FP_ONE, x: 0, y: 0, z: 0 });
}
