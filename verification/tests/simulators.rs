use sensor_fusion::fixed::SCALE;
use sensor_fusion::gps::{GpsFaultType, GpsSimulator, CENTER_LAT, CENTER_LON};
use sensor_fusion::imu::{FaultType, ImuSimulator};

/// Scenario: an accelerometer-spike fault makes the next sample exceed the
/// normal-operation envelope (over 15 units on at least one axis); after
/// `reset_faults` the readings return to the nominal envelope.
#[test]
fn accel_spike_exceeds_envelope_until_reset() {
    let mut imu = ImuSimulator::with_seed(7);
    let bound = 15 * SCALE;
    let mut spiked = false;
    for _ in 0..20 {
        imu.inject_fault(FaultType::AccelSpike);
        let d = imu.read();
        if d.acceleration.x.abs() > bound || d.acceleration.y.abs() > bound
            || d.acceleration.z.abs() > bound {
            spiked = true;
            break;
        }
    }
    assert!(spiked, "no spike sample left the nominal envelope");
    imu.reset_faults();
    for _ in 0..10 {
        let d = imu.read();
        // nominal: truth under 0.5, gravity 9.81, noise a fraction of a unit
        assert!(d.acceleration.x.abs() <= bound);
        assert!(d.acceleration.y.abs() <= bound);
        assert!(d.acceleration.z.abs() <= bound);
    }
}

/// High-noise mode inflates the configured deviations tenfold and reset
/// restores the defaults.
#[test]
fn high_noise_until_reset() {
    let mut imu = ImuSimulator::with_seed(1);
    imu.inject_fault(FaultType::HighNoise);
    assert_eq!(imu.accel_noise_std, 500_000_000);
    assert_eq!(imu.gyro_noise_std, 50_000_000);
    imu.reset_faults();
    assert_eq!(imu.accel_noise_std, 50_000_000);
    assert_eq!(imu.gyro_noise_std, 5_000_000);
}

/// The same seed reproduces the same sample sequence; the private random
/// source is constructor-injected, not global.
#[test]
fn seeded_imu_is_deterministic() {
    let mut a = ImuSimulator::with_seed(99);
    let mut b = ImuSimulator::with_seed(99);
    for _ in 0..5 {
        let da = a.read();
        let db = b.read();
        assert_eq!(da.acceleration, db.acceleration);
        assert_eq!(da.gyroscope, db.gyroscope);
        assert_eq!(da.noise_level, db.noise_level);
        assert_eq!(da.health, db.health);
    }
}

/// Noise level and health always land in their documented ranges.
#[test]
fn imu_sample_ranges() {
    let mut imu = ImuSimulator::with_seed(3);
    for _ in 0..50 {
        let d = imu.read();
        assert!(0 <= d.noise_level && d.noise_level <= SCALE);
        assert!(850_000_000 <= d.health && d.health <= SCALE);
    }
}

/// The positioning ground truth stays on the circular path around the
/// configured center, and the emitted fix stays near it.
#[test]
fn gps_path_stays_near_center() {
    let mut gps = GpsSimulator::with_seed(5);
    for _ in 0..30 {
        gps.update();
        let p = gps.get_true_position();
        assert!((p.lat - CENTER_LAT).abs() <= 1_100_000);
        assert!((p.lon - CENTER_LON).abs() <= 2_000_000);
        let d = gps.get_latest();
        assert!(0 <= d.health && d.health <= SCALE);
        assert!(0 <= d.heading && d.heading < 360_000_000_000);
        assert!((d.latitude - p.lat).abs() <= 2_000_000);
    }
}

/// Signal loss drops the satellite count below a 3D fix and inflates the
/// dilution of precision; reset restores the defaults.
#[test]
fn gps_signal_loss_and_reset() {
    let mut gps = GpsSimulator::with_seed(11);
    gps.inject_fault(GpsFaultType::SignalLoss);
    assert_eq!(gps.satellites, 2);
    assert_eq!(gps.hdop, 15_000_000_000);
    let d = gps.get_latest();
    assert_eq!(d.satellites, 2);
    gps.reset_faults();
    assert_eq!(gps.satellites, 12);
    assert_eq!(gps.hdop, 1_200_000_000);
    assert_eq!(gps.position_noise_std, 2_500_000_000);
}

/// Poor accuracy degrades quality and noise together.
#[test]
fn gps_poor_accuracy() {
    let mut gps = GpsSimulator::with_seed(12);
    gps.inject_fault(GpsFaultType::PoorAccuracy);
    assert_eq!(gps.hdop, 8_000_000_000);
    assert_eq!(gps.satellites, 4);
    assert_eq!(gps.position_noise_std, 15_000_000_000);
}

/// A position jump moves the ground truth by less than the path radius,
/// one-shot.
#[test]
fn gps_position_jump_is_bounded() {
    let mut gps = GpsSimulator::with_seed(13);
    let before = gps.get_true_position();
    gps.inject_fault(GpsFaultType::PositionJump);
    let after = gps.get_true_position();
    assert!((after.lat - before.lat).abs() <= 1_000_000);
    assert!((after.lon - before.lon).abs() <= 1_000_000);
    assert_eq!(after.alt, before.alt);
}

/// The gyroscope bias stays inside its documented clamp while drifting.
#[test]
fn gyro_bias_stays_clamped() {
    let mut imu = ImuSimulator::with_seed(21);
    for _ in 0..100 {
        let _ = imu.read();
        assert!(imu.gyro_bias.x.abs() <= 10_000_000);
        assert!(imu.gyro_bias.y.abs() <= 10_000_000);
        assert!(imu.gyro_bias.z.abs() <= 10_000_000);
    }
}
