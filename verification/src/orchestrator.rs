//! Orchestration step logic: one fusion step per inertial tick, positioning
//! ticks on their own cadence, and dispatch of string-tagged operator
//! commands to the simulators.
//!
//! The surrounding event loop (timers, sockets, queues) lives outside the
//! library; it feeds events in and carries estimates out as plain values.

use vstd::prelude::*;

verus! {

use vstd::string::StringExecFns;
use crate::fixed::{SCALE, spec_clamp};
use crate::fusion::{ComplementaryFilter, NORM_EPS};
use crate::imu::{ImuSimulator, FaultType};
use crate::gps::GpsSimulator;
use crate::models::{FusedSensorData, ImuData, GpsData};

/// The recognized operator command vocabulary, with an explicit variant for
/// anything outside it.
#[derive(Debug, Clone, Copy, PartialEq, Eq, Structural)]
pub enum FaultCommand {
    /// A fault aimed at the inertial simulator.
    Inertial(FaultType),
    /// Clear all fault state on both simulators.
    Reset,
    /// A tag outside the vocabulary: ignored, never fatal.
    Unrecognized,
}

/// The command a tag denotes: `accel_spike`, `gyro_spike`, `high_noise`,
/// `reset`, or nothing recognizable.
pub open spec fn spec_parse_command(s: Seq<char>) -> FaultCommand {
    if s == "accel_spike"@ {
        FaultCommand::Inertial(FaultType::AccelSpike)
    } else if s == "gyro_spike"@ {
        FaultCommand::Inertial(FaultType::GyroSpike)
    } else if s == "high_noise"@ {
        FaultCommand::Inertial(FaultType::HighNoise)
    } else if s == "reset"@ {
        FaultCommand::Reset
    } else {
        FaultCommand::Unrecognized
    }
}

/// Parse a string-tagged operator command into the closed vocabulary.
pub fn parse_command(cmd: &String) -> (r: FaultCommand)
    ensures
        r == spec_parse_command(cmd@),
{
    proof {
        reveal_strlit("accel_spike");
        reveal_strlit("gyro_spike");
        reveal_strlit("high_noise");
        reveal_strlit("reset");
    }
    if *cmd == String::from_str("accel_spike") {
        FaultCommand::Inertial(FaultType::AccelSpike)
    } else if *cmd == String::from_str("gyro_spike") {
        FaultCommand::Inertial(FaultType::GyroSpike)
    } else if *cmd == String::from_str("high_noise") {
        FaultCommand::Inertial(FaultType::HighNoise)
    } else if *cmd == String::from_str("reset") {
        FaultCommand::Reset
    } else {
        FaultCommand::Unrecognized
    }
}

/// The kinds of inbound client messages the pipeline understands.
#[derive(Debug, Clone, Copy, PartialEq, Eq, Structural)]
pub enum MessageKind {
    /// An operator control command (fault injection).
    Command,
    /// An anomaly score from the external scoring collaborator.
    AnomalyPrediction,
    /// A keep-alive.
    Heartbeat,
    /// Anything else: logged and ignored.
    Unknown,
}

/// The kind a message-type tag denotes.
pub open spec fn spec_classify_message(s: Seq<char>) -> MessageKind {
    if s == "command"@ {
        MessageKind::Command
    } else if s == "anomaly_prediction"@ {
        MessageKind::AnomalyPrediction
    } else if s == "heartbeat"@ {
        MessageKind::Heartbeat
    } else {
        MessageKind::Unknown
    }
}

/// Classify an inbound message-type tag.
pub fn classify_message(kind: &String) -> (r: MessageKind)
    ensures
        r == spec_classify_message(kind@),
{
    proof {
        reveal_strlit("command");
        reveal_strlit("anomaly_prediction");
        reveal_strlit("heartbeat");
    }
    if *kind == String::from_str("command") {
        MessageKind::Command
    } else if *kind == String::from_str("anomaly_prediction") {
        MessageKind::AnomalyPrediction
    } else if *kind == String::from_str("heartbeat") {
        MessageKind::Heartbeat
    } else {
        MessageKind::Unknown
    }
}

/// The orchestrator's state: the two simulators and the fusion filter,
/// exclusively owned, never shared.
pub struct Orchestrator {
    /// The inertial simulator.
    pub imu: ImuSimulator,
    /// The positioning simulator.
    pub gps: GpsSimulator,
    /// The complementary filter.
    pub filter: ComplementaryFilter,
}

impl Orchestrator {
    /// Well-formedness of all three components.
    pub open spec fn wf(self) -> bool {
        &&& self.imu.wf()
        &&& self.gps.wf()
        &&& self.filter.wf()
    }

    /// A new orchestrator with entropy-seeded simulators and the given
    /// filter coefficient (clamped into `[0, SCALE]`).
    pub fn new(alpha: i64) -> (o: Orchestrator)
        ensures
            o.wf(),
            o.imu.fresh(),
            o.gps.fresh(),
            o.filter.alpha == spec_clamp(alpha as int, 0, SCALE as int),
            !o.filter.initialized,
    {
        Orchestrator {
            imu: ImuSimulator::new(),
            gps: GpsSimulator::new(),
            filter: ComplementaryFilter::new(alpha),
        }
    }

    /// A new orchestrator with deterministically seeded simulators, for
    /// reproducible runs.
    pub fn with_seeds(alpha: i64, imu_seed: u64, gps_seed: u64) -> (o: Orchestrator)
        ensures
            o.wf(),
            o.imu.fresh(),
            o.gps.fresh(),
            o.filter.alpha == spec_clamp(alpha as int, 0, SCALE as int),
            !o.filter.initialized,
    {
        Orchestrator {
            imu: ImuSimulator::with_seed(imu_seed),
            gps: GpsSimulator::with_seed(gps_seed),
            filter: ComplementaryFilter::new(alpha),
        }
    }

    /// One inertial tick: read a fresh inertial sample, take the latest
    /// positioning reading, fuse them, and attach the most recent anomaly
    /// score if one is at hand (clamped into `[0, SCALE]`).
    ///
    /// The returned estimate always has a unit-norm orientation within one
    /// part in a million and confidence and health in `[0, SCALE]`; the
    /// positioning ground truth is not advanced.
    pub fn on_inertial_tick(&mut self, anomaly: Option<i64>) -> (out: FusedSensorData)
        requires
            old(self).wf(),
        ensures
            final(self).wf(),
            ((SCALE as int) - (NORM_EPS as int)) * ((SCALE as int) - (NORM_EPS as int))
                <= out.orientation.spec_norm_sq(),
            out.orientation.spec_norm_sq() <= ((SCALE as int) + (NORM_EPS as int)) * ((
            SCALE as int) + (NORM_EPS as int)),
            0 <= out.confidence <= SCALE as int,
            0 <= out.system_health <= SCALE as int,
            out.orientation == final(self).filter.orientation,
            out.position == final(self).filter.position,
            anomaly is None ==> out.anomaly_score is None,
            anomaly matches Some(a) ==> out.anomaly_score == Some(
                spec_clamp(a as int, 0, SCALE as int) as i64,
            ),
            final(self).imu.tick_count == (if old(self).imu.tick_count == u64::MAX {
                0u64
            } else {
                (old(self).imu.tick_count + 1) as u64
            }),
            final(self).imu.accel_spike is None,
            final(self).imu.gyro_spike is None,
            final(self).imu.accel_noise_std == old(self).imu.accel_noise_std,
            final(self).imu.gyro_noise_std == old(self).imu.gyro_noise_std,
            final(self).gps.position == old(self).gps.position,
            final(self).gps.update_count == old(self).gps.update_count,
            exists|imu_s: ImuData, gps_s: GpsData|
                {
                    &&& crate::imu::spec_read_rel(old(self).imu, final(self).imu, imu_s)
                    &&& crate::gps::spec_latest_rel(old(self).gps, final(self).gps, gps_s)
                    &&& crate::fusion::spec_update_rel(
                        old(self).filter,
                        final(self).filter,
                        imu_s,
                        gps_s,
                        (FusedSensorData { anomaly_score: Option::None, ..out }),
                    )
                },
    {
        let imu_data = self.imu.read();
        let gps_data = self.gps.get_latest();
        let mut out = self.filter.update(imu_data, gps_data);
        match anomaly {
            Option::Some(a) => out.set_anomaly_score(a),
            Option::None => {},
        }
        proof {
            assert(crate::imu::spec_read_rel(old(self).imu, self.imu, imu_data));
            assert(crate::gps::spec_latest_rel(old(self).gps, self.gps, gps_data));
            assert(crate::fusion::spec_update_rel(
                old(self).filter,
                self.filter,
                imu_data,
                gps_data,
                (FusedSensorData { anomaly_score: Option::None, ..out }),
            ));
        }
        out
    }

    /// One positioning tick: advance the positioning ground truth one step
    /// along its path and refresh the signal quality; no estimate is
    /// produced, and neither the inertial simulator nor the filter changes.
    pub fn on_positioning_tick(&mut self)
        requires
            old(self).wf(),
        ensures
            final(self).wf(),
            final(self).imu == old(self).imu,
            final(self).filter == old(self).filter,
            final(self).gps.update_count == (if old(self).gps.update_count == u64::MAX {
                0u64
            } else {
                (old(self).gps.update_count + 1) as u64
            }),
            final(self).gps.position == (crate::models::GeoPos {
                lat: crate::gps::spec_true_lat(final(self).gps.update_count as int) as i64,
                lon: crate::gps::spec_true_lon(final(self).gps.update_count as int) as i64,
                alt: crate::gps::spec_true_alt(final(self).gps.update_count as int) as i64,
            }),
            final(self).gps.speed == crate::gps::PATH_SPEED,
            final(self).gps.heading == crate::gps::spec_true_heading(
                final(self).gps.update_count as int,
            ),
            final(self).gps.velocity == crate::gps::spec_true_velocity(
                final(self).gps.update_count as int,
            ),
            final(self).gps.position_noise_std == old(self).gps.position_noise_std,
            final(self).gps.update_count % 20 == 0 ==> 800_000_000 <= final(self).gps.hdop
                <= 8_000_000_000,
            final(self).gps.update_count % 20 != 0 ==> final(self).gps.satellites == old(self).gps.satellites,
            final(self).gps.update_count % 20 != 0 ==> final(self).gps.hdop == (if old(self).gps.hdop > 1_500_000_000 {
                old(self).gps.hdop - 10_000_000
            } else {
                old(self).gps.hdop as int
            }),
            final(self).gps.satellites >= 4 && final(self).gps.hdop < 5_000_000_000 ==> final(self).gps.last_good_position == final(self).gps.position,
            !(final(self).gps.satellites >= 4 && final(self).gps.hdop < 5_000_000_000) ==> final(self).gps.last_good_position == old(self).gps.last_good_position,
    {
        self.gps.update();
    }

    /// Apply one operator command: inertial faults go to the inertial
    /// simulator, the global reset clears fault state on both simulators,
    /// and an unrecognized tag changes nothing at all.
    pub fn on_command(&mut self, cmd: &String)
        requires
            old(self).wf(),
        ensures
            final(self).wf(),
            spec_parse_command(cmd@) == FaultCommand::Unrecognized ==> *final(self) == *old(self),
            spec_parse_command(cmd@) == FaultCommand::Reset ==> {
                &&& final(self).filter == old(self).filter
                &&& final(self).imu == (ImuSimulator {
                    accel_noise_std: crate::imu::ACCEL_NOISE_DEFAULT,
                    gyro_noise_std: crate::imu::GYRO_NOISE_DEFAULT,
                    ..old(self).imu
                })
                &&& final(self).gps == (GpsSimulator {
                    hdop: crate::gps::HDOP_DEFAULT,
                    satellites: 12u8,
                    position_noise_std: crate::gps::POS_NOISE_DEFAULT,
                    ..old(self).gps
                })
            },
            (spec_parse_command(cmd@) matches FaultCommand::Inertial(f)) ==> {
                &&& final(self).filter == old(self).filter
                &&& final(self).gps == old(self).gps
                &&& (spec_parse_command(cmd@) == FaultCommand::Inertial(FaultType::AccelSpike)
                    ==> {
                    &&& final(self).imu.accel_spike is Some
                    &&& -20 * (SCALE as int) <= final(self).imu.accel_spike->0.x < 20 * (
                    SCALE as int)
                    &&& -20 * (SCALE as int) <= final(self).imu.accel_spike->0.y < 20 * (
                    SCALE as int)
                    &&& -20 * (SCALE as int) <= final(self).imu.accel_spike->0.z < 20 * (
                    SCALE as int)
                    &&& final(self).imu == (ImuSimulator {
                        accel_spike: final(self).imu.accel_spike,
                        rng: final(self).imu.rng,
                        ..old(self).imu
                    })
                })
                &&& (spec_parse_command(cmd@) == FaultCommand::Inertial(FaultType::GyroSpike)
                    ==> {
                    &&& final(self).imu.gyro_spike is Some
                    &&& -5 * (SCALE as int) <= final(self).imu.gyro_spike->0.x < 5 * (
                    SCALE as int)
                    &&& -5 * (SCALE as int) <= final(self).imu.gyro_spike->0.y < 5 * (
                    SCALE as int)
                    &&& -5 * (SCALE as int) <= final(self).imu.gyro_spike->0.z < 5 * (
                    SCALE as int)
                    &&& final(self).imu == (ImuSimulator {
                        gyro_spike: final(self).imu.gyro_spike,
                        rng: final(self).imu.rng,
                        ..old(self).imu
                    })
                })
                &&& (spec_parse_command(cmd@) == FaultCommand::Inertial(FaultType::HighNoise)
                    ==> final(self).imu == (ImuSimulator {
                    accel_noise_std: 500_000_000i64,
                    gyro_noise_std: 50_000_000i64,
                    ..old(self).imu
                }))
            },
    {
        let c = parse_command(cmd);
        match c {
            FaultCommand::Inertial(f) => self.imu.inject_fault(f),
            FaultCommand::Reset => {
                self.imu.reset_faults();
                self.gps.reset_faults();
            },
            FaultCommand::Unrecognized => {},
        }
    }
}

} // verus!
