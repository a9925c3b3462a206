use sensor_fusion::fixed::SCALE;
use sensor_fusion::fusion::ComplementaryFilter;
use sensor_fusion::models::Quaternion;

fn nlerp_manual(q1: &Quaternion, q2: &Quaternion, t: i64) -> Quaternion {
    let mix = |a: i64, b: i64| a + ((t as i128 * (b - a) as i128) / SCALE as i128) as i64;
    Quaternion::new(mix(q1.w, q2.w), mix(q1.x, q2.x), mix(q1.y, q2.y), mix(q1.z, q2.z))
}

/// Interpolating two nearly identical orientations (dot product above
/// 0.9995) takes the linear fallback: the result equals the renormalized
/// linear blend exactly, with no division by a near-zero sine.
#[test]
fn slerp_near_identical_matches_linear_fallback() {
    let f = ComplementaryFilter::new(980_000_000);
    let q1 = Quaternion::identity();
    let q2 = Quaternion::new(999_999_500, 1_000_000, -500_000, 250_000);
    let t = 500_000_000;
    let got = f.slerp(q1, q2, t);
    let want = f.normalize_quaternion(nlerp_manual(&q1, &q2, t));
    assert_eq!(got, want);
}

/// Interpolation at fraction 0 returns the first quaternion, at the full
/// fraction the second (each renormalized).
#[test]
fn slerp_endpoints() {
    let f = ComplementaryFilter::new(980_000_000);
    let q1 = Quaternion::new(0, SCALE, 0, 0);
    let q2 = Quaternion::new(0, 0, SCALE, 0);
    assert_eq!(f.slerp(q1, q2, 0), f.normalize_quaternion(q1));
    assert_eq!(f.slerp(q1, q2, SCALE), f.normalize_quaternion(q2));
}

/// With a negative dot product the shorter path is taken: the full
/// fraction lands on the negated second quaternion.
#[test]
fn slerp_takes_shorter_path() {
    let f = ComplementaryFilter::new(980_000_000);
    let q1 = Quaternion::identity();
    let q2 = Quaternion::new(-SCALE, 0, 0, 0);
    let got = f.slerp(q1, q2, SCALE);
    assert_eq!(got, Quaternion::identity());
}

/// Interpolation of well-separated orientations also lands on the unit
/// sphere within one part in a million.
#[test]
fn slerp_general_branch_unit_norm() {
    let f = ComplementaryFilter::new(980_000_000);
    // about a 90-degree separation: dot is 0.5, well under the threshold
    let q1 = Quaternion::new(SCALE, 0, 0, 0);
    let half = 707_106_781;
    let q2 = Quaternion::new(half, half, 0, 0);
    let r = f.slerp(q1, q2, 300_000_000);
    let n = r.w as i128 * r.w as i128 + r.x as i128 * r.x as i128 + r.y as i128 * r.y as i128
        + r.z as i128 * r.z as i128;
    let lo = (SCALE - 1000) as i128 * (SCALE - 1000) as i128;
    let hi = (SCALE + 1000) as i128 * (SCALE + 1000) as i128;
    assert!(n >= lo && n <= hi);
}

/// A collapsed quaternion falls back to the identity instead of dividing
/// by a vanishing norm.
#[test]
fn normalize_collapsed_falls_back_to_identity() {
    let f = ComplementaryFilter::new(980_000_000);
    let tiny = Quaternion::new(3, -2, 1, 0);
    assert_eq!(f.normalize_quaternion(tiny), Quaternion::identity());
}
