use sensor_fusion::fixed::SCALE;
use sensor_fusion::fusion::ComplementaryFilter;
use sensor_fusion::models::{GeoPos, GpsData, ImuData, Quaternion, Vec3};

fn norm_sq(q: &Quaternion) -> i128 {
    q.w as i128 * q.w as i128 + q.x as i128 * q.x as i128 + q.y as i128 * q.y as i128
        + q.z as i128 * q.z as i128
}

fn gps_fix(lat: i64, lon: i64, alt: i64, hdop: i64) -> GpsData {
    let mut g = GpsData::new(lat, lon, alt);
    g.hdop = hdop;
    g
}

/// Scenario: alpha 0.98, zero angular velocity, gravity-only acceleration,
/// a clean fix: the first update seeds the position exactly and leaves the
/// orientation at the identity (zero roll/pitch/yaw).
#[test]
fn first_update_seeds_position_and_keeps_identity() {
    let mut f = ComplementaryFilter::new(980_000_000);
    let imu = ImuData::new(Vec3::new(0, 0, 9_810_000_000), Vec3::zero());
    let gps = gps_fix(39_739_200_000, -104_990_300_000, 1_655_000_000_000, 1_200_000_000);
    let out = f.update(imu, gps);
    assert_eq!(
        out.position,
        GeoPos { lat: 39_739_200_000, lon: -104_990_300_000, alt: 1_655_000_000_000 }
    );
    assert_eq!(out.orientation, Quaternion::identity());
    assert_eq!(out.euler_degrees.roll, 0);
    assert_eq!(out.euler_degrees.pitch, 0);
    assert_eq!(out.euler_degrees.yaw, 0);
}

/// The returned orientation has unit norm within one part in a million,
/// even when fed extreme inputs for many steps.
#[test]
fn orientation_stays_unit_norm() {
    let mut f = ComplementaryFilter::new(980_000_000);
    let lo = (SCALE - 1000) as i128 * (SCALE - 1000) as i128;
    let hi = (SCALE + 1000) as i128 * (SCALE + 1000) as i128;
    for i in 0..200i64 {
        let imu = ImuData::new(
            Vec3::new(i * 31_000_000, -i * 17_000_000, 9_810_000_000 + i * 1_000_000),
            Vec3::new(i * 5_000_000, i * 3_000_000, -i * 2_000_000),
        );
        let gps = gps_fix(39_739_200_000 + i, -104_990_300_000 - i, 1_655_000_000_000, SCALE);
        let out = f.update(imu, gps);
        let n = norm_sq(&out.orientation);
        assert!(n >= lo && n <= hi, "norm out of tolerance at step {i}: {n}");
    }
}

/// Extreme, out-of-range sensor inputs still give confidence and system
/// health inside [0, 1].
#[test]
fn confidence_and_health_clamped_for_extreme_inputs() {
    let mut f = ComplementaryFilter::new(980_000_000);
    let mut imu = ImuData::new(Vec3::new(i64::MAX, i64::MIN, i64::MAX), Vec3::new(i64::MIN, 0, 7));
    imu.noise_level = i64::MIN;
    imu.health = i64::MAX;
    let mut gps = gps_fix(i64::MAX, i64::MIN, i64::MAX, i64::MAX);
    gps.health = i64::MIN;
    gps.speed = i64::MAX;
    gps.heading = i64::MIN;
    let out = f.update(imu, gps);
    assert!(0 <= out.confidence && out.confidence <= SCALE);
    assert!(0 <= out.system_health && out.system_health <= SCALE);
}

/// The confidence formula, on exact values: noise 0.25, dilution 3.0 gives
/// 0.6 * 0.75 + 0.4 * 0.7 = 0.73.
#[test]
fn confidence_formula_exact() {
    let f = ComplementaryFilter::new(980_000_000);
    let mut imu = ImuData::new(Vec3::zero(), Vec3::zero());
    imu.noise_level = 250_000_000;
    let gps = gps_fix(0, 0, 0, 3_000_000_000);
    assert_eq!(f.calculate_confidence(&imu, &gps), 730_000_000);
}

/// System health is the average of the two health fields: (0.9 + 0.7) / 2.
#[test]
fn system_health_average_exact() {
    let f = ComplementaryFilter::new(980_000_000);
    let mut imu = ImuData::new(Vec3::zero(), Vec3::zero());
    imu.health = 900_000_000;
    let mut gps = gps_fix(0, 0, 0, SCALE);
    gps.health = 700_000_000;
    assert_eq!(f.calculate_system_health(&imu, &gps), 800_000_000);
}

/// Scenario: positioning-derived confidence tiers: dilution 6.0 gives 0.3,
/// 1.0 gives 1.0 (and the middle band gives 0.7).
#[test]
fn gps_confidence_tiers() {
    assert_eq!(ComplementaryFilter::gps_confidence(6_000_000_000), 300_000_000);
    assert_eq!(ComplementaryFilter::gps_confidence(1_000_000_000), SCALE);
    assert_eq!(ComplementaryFilter::gps_confidence(3_500_000_000), 700_000_000);
}

/// The filter coefficient is clamped on construction and on retuning.
#[test]
fn alpha_clamped() {
    let mut f = ComplementaryFilter::new(7_000_000_000);
    assert_eq!(f.alpha(), SCALE);
    f.set_alpha(-5);
    assert_eq!(f.alpha(), 0);
    f.set_alpha(400_000_000);
    assert_eq!(f.alpha(), 400_000_000);
}

/// Position fusion is idempotent at steady state: with the estimate already
/// at a constant fix, a blend step leaves it exactly unchanged; from
/// elsewhere, the distance to the fix shrinks monotonically and stabilizes.
#[test]
fn position_blend_converges_to_constant_fix() {
    let mut f = ComplementaryFilter::new(980_000_000);
    f.initialized = true;
    f.position = GeoPos { lat: 0, lon: 0, alt: 0 };
    let fix = gps_fix(1_000_000_000, -2_000_000_000, 500_000_000, 1_200_000_000);
    let mut last_dist = i64::MAX;
    for _ in 0..80 {
        f.update_position(&fix);
        let dist = (fix.latitude - f.position.lat).abs();
        assert!(dist <= last_dist, "distance to the fix grew");
        last_dist = dist;
    }
    // Stabilized: a handful of nano-degrees from the fix, and a further
    // step changes nothing once the estimate sits on the fix itself.
    assert!(last_dist <= 4);
    f.position = GeoPos { lat: fix.latitude, lon: fix.longitude, alt: fix.altitude };
    f.update_position(&fix);
    assert_eq!(f.position.lat, fix.latitude);
    assert_eq!(f.position.lon, fix.longitude);
    assert_eq!(f.position.alt, fix.altitude);
}

/// Velocity fusion on exact values: gravity-only acceleration over the
/// default first step contributes half of 9.81 * 0.02 vertically.
#[test]
fn velocity_vertical_split_exact() {
    let mut f = ComplementaryFilter::new(980_000_000);
    let imu = ImuData::new(Vec3::new(0, 0, 9_810_000_000), Vec3::zero());
    let gps = gps_fix(0, 0, 0, SCALE);
    let out = f.update(imu, gps);
    // az = 9.81 * 0.02 = 0.1962; vz = 0.5 * az = 0.0981
    assert_eq!(out.velocity.z, 98_100_000);
    assert_eq!(out.velocity.x, 0);
    assert_eq!(out.velocity.y, 0);
}
