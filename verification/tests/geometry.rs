use sensor_fusion::fixed::SCALE;
use sensor_fusion::models::{Quaternion, Vec3};
use sensor_fusion::trig::{acos_fp, asin_fp, atan2_fp, cos_fp, sin_fp, HALF_PI_N, PI_N};

/// Magnitude on a Pythagorean triple is exact.
#[test]
fn magnitude_pythagorean() {
    let v = Vec3::new(3 * SCALE, 4 * SCALE, 0);
    assert_eq!(v.magnitude(), 5 * SCALE);
}

/// Normalizing an axis-aligned vector gives the exact unit axis; the zero
/// vector stays zero instead of dividing by zero.
#[test]
fn normalize_axis_and_zero() {
    let v = Vec3::new(0, 0, 9_810_000_000);
    assert_eq!(v.normalize(), Vec3::new(0, 0, SCALE));
    assert_eq!(Vec3::zero().normalize(), Vec3::zero());
}

/// The Euler angles of the identity quaternion are exactly zero.
#[test]
fn identity_euler_is_zero() {
    let e = Quaternion::identity().to_euler();
    assert_eq!(e, (0, 0, 0));
}

/// A quarter turn about the vertical axis reads back as a quarter-turn
/// yaw within the approximation tolerance.
#[test]
fn yaw_quarter_turn_roundtrip() {
    // cos(pi/4) and sin(pi/4) of the half angle
    let c = 707_106_781;
    let q = Quaternion::new(c, 0, 0, c);
    let (roll, pitch, yaw) = q.to_euler();
    assert_eq!(roll, 0);
    assert_eq!(pitch, 0);
    assert!((yaw - HALF_PI_N).abs() < 8_000_000, "yaw was {yaw}");
}

/// Exact trigonometric anchor points of the fixed-point kernels.
#[test]
fn trig_anchor_points() {
    assert_eq!(sin_fp(0), 0);
    assert_eq!(cos_fp(0), SCALE);
    assert_eq!(atan2_fp(0, 123_456), 0);
    assert_eq!(atan2_fp(0, -5), PI_N);
    assert_eq!(asin_fp(0), 0);
    assert_eq!(asin_fp(SCALE), HALF_PI_N);
    assert_eq!(asin_fp(-SCALE), -HALF_PI_N);
    assert_eq!(acos_fp(SCALE), 0);
}

/// The sine and cosine kernels track the mathematical functions within a
/// fraction of a percent across the wrapped range.
#[test]
fn trig_tracks_reference() {
    for k in -70..=70 {
        let x = k * 100_000_000i64; // steps of 0.1 rad across more than one period
        let xf = x as f64 / SCALE as f64;
        let sf = (sin_fp(x) as f64 / SCALE as f64 - xf.sin()).abs();
        let cf = (cos_fp(x) as f64 / SCALE as f64 - xf.cos()).abs();
        assert!(sf < 0.005, "sin off by {sf} at {xf}");
        assert!(cf < 0.005, "cos off by {cf} at {xf}");
    }
}

/// The quadrant-corrected arctangent lands in the right quadrant and
/// tracks the reference within the documented approximation error.
#[test]
fn atan2_quadrants() {
    let cases = [
        (SCALE, SCALE),
        (SCALE, -SCALE),
        (-SCALE, SCALE),
        (-SCALE, -SCALE),
        (3 * SCALE, 4 * SCALE),
        (-2 * SCALE, 7 * SCALE),
    ];
    for (y, x) in cases {
        let got = atan2_fp(y, x) as f64 / SCALE as f64;
        let want = (y as f64).atan2(x as f64);
        assert!((got - want).abs() < 0.006, "atan2({y}, {x}): {got} vs {want}");
    }
}

/// A vector below the magnitude-zero threshold normalizes to the zero
/// vector instead of a coarsely scaled direction.
#[test]
fn normalize_tiny_vector_is_zero() {
    let v = Vec3::new(1, 1, 1);
    assert_eq!(v.normalize(), Vec3::zero());
}

/// Above the threshold the result is unit within one part in a million,
/// however small the magnitude, and keeps the direction's signs.
#[test]
fn normalize_small_vector_is_unit() {
    let v = Vec3::new(2000, -1500, 300);
    let r = v.normalize();
    let n = r.x as i128 * r.x as i128 + r.y as i128 * r.y as i128 + r.z as i128 * r.z as i128;
    assert!(n >= (SCALE - 1000) as i128 * (SCALE - 1000) as i128);
    assert!(n <= (SCALE + 1000) as i128 * (SCALE + 1000) as i128);
    assert!(r.x > 0 && r.y < 0 && r.z > 0);
}
