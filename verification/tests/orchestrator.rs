use sensor_fusion::fixed::SCALE;
use sensor_fusion::orchestrator::{
    classify_message, parse_command, FaultCommand, MessageKind, Orchestrator,
};
use sensor_fusion::imu::FaultType;

/// The command vocabulary parses to the closed variant set, with anything
/// else falling into the explicit unrecognized variant.
#[test]
fn command_vocabulary() {
    assert_eq!(
        parse_command(&String::from("accel_spike")),
        FaultCommand::Inertial(FaultType::AccelSpike)
    );
    assert_eq!(
        parse_command(&String::from("gyro_spike")),
        FaultCommand::Inertial(FaultType::GyroSpike)
    );
    assert_eq!(
        parse_command(&String::from("high_noise")),
        FaultCommand::Inertial(FaultType::HighNoise)
    );
    assert_eq!(parse_command(&String::from("reset")), FaultCommand::Reset);
    assert_eq!(parse_command(&String::from("self_destruct")), FaultCommand::Unrecognized);
    assert_eq!(parse_command(&String::from("")), FaultCommand::Unrecognized);
}

/// Scenario: a command tag outside the vocabulary changes no simulator
/// state and raises no error.
#[test]
fn unrecognized_command_changes_nothing() {
    let mut o = Orchestrator::with_seeds(980_000_000, 1, 2);
    let imu_before = (
        o.imu.tick_count,
        o.imu.accel_noise_std,
        o.imu.gyro_noise_std,
        o.imu.accel_spike,
        o.imu.gyro_spike,
        o.imu.orientation,
    );
    let gps_before = (o.gps.update_count, o.gps.hdop, o.gps.satellites, o.gps.position);
    o.on_command(&String::from("frobnicate"));
    let imu_after = (
        o.imu.tick_count,
        o.imu.accel_noise_std,
        o.imu.gyro_noise_std,
        o.imu.accel_spike,
        o.imu.gyro_spike,
        o.imu.orientation,
    );
    let gps_after = (o.gps.update_count, o.gps.hdop, o.gps.satellites, o.gps.position);
    assert_eq!(imu_before, imu_after);
    assert_eq!(gps_before, gps_after);
}

/// The global reset restores both simulators' default fault state.
#[test]
fn reset_command_clears_both_simulators() {
    let mut o = Orchestrator::with_seeds(980_000_000, 1, 2);
    o.on_command(&String::from("high_noise"));
    assert_eq!(o.imu.accel_noise_std, 500_000_000);
    o.gps.inject_fault(sensor_fusion::gps::GpsFaultType::SignalLoss);
    o.on_command(&String::from("reset"));
    assert_eq!(o.imu.accel_noise_std, 50_000_000);
    assert_eq!(o.imu.gyro_noise_std, 5_000_000);
    assert_eq!(o.gps.hdop, 1_200_000_000);
    assert_eq!(o.gps.satellites, 12);
}

/// An inertial tick produces an estimate with a unit orientation and
/// bounded quality figures, and merges the supplied anomaly score.
#[test]
fn inertial_tick_produces_estimate_with_score() {
    let mut o = Orchestrator::with_seeds(980_000_000, 4, 5);
    let out = o.on_inertial_tick(Some(2_500_000_000));
    assert_eq!(out.anomaly_score, Some(SCALE));
    assert!(0 <= out.confidence && out.confidence <= SCALE);
    assert!(0 <= out.system_health && out.system_health <= SCALE);
    let out2 = o.on_inertial_tick(None);
    assert_eq!(out2.anomaly_score, None);
    let q = out2.orientation;
    let n = q.w as i128 * q.w as i128 + q.x as i128 * q.x as i128 + q.y as i128 * q.y as i128
        + q.z as i128 * q.z as i128;
    assert!(n >= (SCALE - 1000) as i128 * (SCALE - 1000) as i128);
    assert!(n <= (SCALE + 1000) as i128 * (SCALE + 1000) as i128);
}

/// A positioning tick advances only the positioning simulator.
#[test]
fn positioning_tick_leaves_filter_and_imu_alone() {
    let mut o = Orchestrator::with_seeds(980_000_000, 4, 5);
    let tick_before = o.imu.tick_count;
    let initialized_before = o.filter.initialized;
    o.on_positioning_tick();
    assert_eq!(o.gps.update_count, 1);
    // the ground truth really advanced along the path
    assert_eq!(o.gps.speed, 5_566_000_000);
    assert_ne!(o.gps.heading, 0);
    assert_eq!(o.imu.tick_count, tick_before);
    assert_eq!(o.filter.initialized, initialized_before);
}

/// A gyroscope spike command plants a one-shot spike that the next sample
/// consumes.
#[test]
fn gyro_spike_command_is_one_shot() {
    let mut o = Orchestrator::with_seeds(980_000_000, 8, 9);
    o.on_command(&String::from("gyro_spike"));
    let spike = o.imu.gyro_spike.expect("spike must be pending");
    assert!(spike.x.abs() <= 5 * SCALE && spike.y.abs() <= 5 * SCALE && spike.z.abs() <= 5 * SCALE);
    let _ = o.on_inertial_tick(None);
    assert!(o.imu.gyro_spike.is_none());
}

/// Inbound message-type tags classify into the closed kind set.
#[test]
fn message_kinds() {
    assert_eq!(classify_message(&String::from("command")), MessageKind::Command);
    assert_eq!(
        classify_message(&String::from("anomaly_prediction")),
        MessageKind::AnomalyPrediction
    );
    assert_eq!(classify_message(&String::from("heartbeat")), MessageKind::Heartbeat);
    assert_eq!(classify_message(&String::from("gossip")), MessageKind::Unknown);
}
