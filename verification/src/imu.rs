//! Inertial (accelerometer + gyroscope) sensor simulator.
//!
//! Ground-truth motion follows smooth bounded sinusoids of the tick count;
//! the emitted sample adds body-frame gravity, a slowly drifting gyroscope
//! bias (a clamped random walk), and bounded zero-mean noise.  Fault
//! injection plants one-shot spikes or inflates the noise deviations until
//! reset.

use vstd::prelude::*;

verus! {

use crate::clock::now_millis;
use crate::fixed::{
    SCALE, spec_mul_div, spec_sat_add, spec_tick_phase, fx_mul_div, sat_add, clamp, tick_phase,
};
use crate::trig::{spec_sin, spec_cos, sin_fp, cos_fp, spec_wrap, wrap_angle};
use crate::fusion::spec_m3;
use crate::models::{Vec3, EulerAngles, ImuData};

/// Faults that can be injected into the inertial simulator.
#[derive(Debug, Clone, Copy, PartialEq, Eq, Structural)]
pub enum FaultType {
    /// Sudden spike in accelerometer readings.
    AccelSpike,
    /// Sudden spike in gyroscope readings.
    GyroSpike,
    /// Elevated noise levels.
    HighNoise,
}

/// Default accelerometer noise standard deviation (0.05 units).
pub const ACCEL_NOISE_DEFAULT: i64 = 50_000_000;

/// Default gyroscope noise standard deviation (0.005 units).
pub const GYRO_NOISE_DEFAULT: i64 = 5_000_000;

/// Bound of the gyroscope bias random walk (0.01 units).
pub const GYRO_BIAS_BOUND: i64 = 10_000_000;

/// Standard deviation of one bias random-walk increment (1e-4 units).
pub const GYRO_BIAS_WALK: i64 = 100_000;

/// Gravity, 9.81 units.
pub const GRAVITY: i64 = 9_810_000_000;

/// The ground-truth angular velocity at a tick: smooth, bounded sinusoids
/// with distinct frequencies and amplitudes per axis.
#[verifier::opaque]
pub open spec fn spec_true_angular_velocity(t: int) -> Vec3 {
    Vec3 {
        x: spec_mul_div(100_000_000, spec_sin(spec_tick_phase(t, 6_000_000)), SCALE as int) as i64,
        y: spec_mul_div(80_000_000, spec_cos(spec_tick_phase(t, 4_000_000)), SCALE as int) as i64,
        z: spec_mul_div(50_000_000, spec_sin(spec_tick_phase(t, 3_000_000)), SCALE as int) as i64,
    }
}

/// The ground-truth linear acceleration at a tick.
#[verifier::opaque]
pub open spec fn spec_true_acceleration(t: int) -> Vec3 {
    Vec3 {
        x: spec_mul_div(500_000_000, spec_sin(spec_tick_phase(t, 2_000_000)), SCALE as int) as i64,
        y: spec_mul_div(300_000_000, spec_cos(spec_tick_phase(t, 3_000_000)), SCALE as int) as i64,
        z: spec_mul_div(200_000_000, spec_sin(spec_tick_phase(t, 1_000_000)), SCALE as int) as i64,
    }
}

/// Euler integration of the ground-truth orientation over one 20 ms tick,
/// each angle wrapped back into `(-PI_N, PI_N]`.
#[verifier::opaque]
pub open spec fn spec_step_orientation(o: EulerAngles, av: Vec3) -> EulerAngles {
    EulerAngles {
        roll: spec_wrap(
            spec_sat_add(o.roll as int, spec_mul_div(av.x as int, 20_000_000, SCALE as int)),
        ) as i64,
        pitch: spec_wrap(
            spec_sat_add(o.pitch as int, spec_mul_div(av.y as int, 20_000_000, SCALE as int)),
        ) as i64,
        yaw: spec_wrap(
            spec_sat_add(o.yaw as int, spec_mul_div(av.z as int, 20_000_000, SCALE as int)),
        ) as i64,
    }
}

/// Gravity rotated into the body frame by the current roll and pitch.
#[verifier::opaque]
pub open spec fn spec_gravity_vector(o: EulerAngles) -> Vec3 {
    Vec3 {
        x: spec_mul_div(-(GRAVITY as int), spec_sin(o.pitch as int), SCALE as int) as i64,
        y: spec_m3(GRAVITY as int, spec_sin(o.roll as int), spec_cos(o.pitch as int)) as i64,
        z: spec_m3(GRAVITY as int, spec_cos(o.roll as int), spec_cos(o.pitch as int)) as i64,
    }
}

/// A measured channel: ground truth plus a frame term plus noise, each
/// addition saturated.
pub open spec fn spec_measured(truth: int, frame: int, noise: int) -> int {
    spec_sat_add(spec_sat_add(truth, frame), noise)
}

/// Everything one `read` call promises, as a relation between the state
/// before, the state after, and the emitted sample: the deterministic
/// ground-truth evolution exactly, and the measured channels up to their
/// bounded noise.
pub open spec fn spec_read_rel(pre: ImuSimulator, post: ImuSimulator, d: ImuData) -> bool {
    &&& post.tick_count == (if pre.tick_count == u64::MAX {
        0u64
    } else {
        (pre.tick_count + 1) as u64
    })
    &&& post.angular_velocity == (match pre.gyro_spike {
        Option::Some(s) => s,
        Option::None => spec_true_angular_velocity(post.tick_count as int),
    })
    &&& post.linear_acceleration == (match pre.accel_spike {
        Option::Some(s) => s,
        Option::None => spec_true_acceleration(post.tick_count as int),
    })
    &&& post.orientation == spec_step_orientation(
        pre.orientation,
        spec_true_angular_velocity(post.tick_count as int),
    )
    &&& post.accel_spike is None
    &&& post.gyro_spike is None
    &&& post.accel_noise_std == pre.accel_noise_std
    &&& post.gyro_noise_std == pre.gyro_noise_std
    &&& exists|nx: int, ny: int, nz: int|
        {
            &&& -6 * pre.accel_noise_std <= nx <= 6 * pre.accel_noise_std
            &&& -6 * pre.accel_noise_std <= ny <= 6 * pre.accel_noise_std
            &&& -6 * pre.accel_noise_std <= nz <= 6 * pre.accel_noise_std
            &&& d.acceleration.x == spec_measured(
                post.linear_acceleration.x as int,
                spec_gravity_vector(post.orientation).x as int,
                nx,
            )
            &&& d.acceleration.y == spec_measured(
                post.linear_acceleration.y as int,
                spec_gravity_vector(post.orientation).y as int,
                ny,
            )
            &&& d.acceleration.z == spec_measured(
                post.linear_acceleration.z as int,
                spec_gravity_vector(post.orientation).z as int,
                nz,
            )
        }
    &&& exists|nx: int, ny: int, nz: int|
        {
            &&& -6 * pre.gyro_noise_std <= nx <= 6 * pre.gyro_noise_std
            &&& -6 * pre.gyro_noise_std <= ny <= 6 * pre.gyro_noise_std
            &&& -6 * pre.gyro_noise_std <= nz <= 6 * pre.gyro_noise_std
            &&& d.gyroscope.x == spec_measured(
                post.angular_velocity.x as int,
                pre.gyro_bias.x as int,
                nx,
            )
            &&& d.gyroscope.y == spec_measured(
                post.angular_velocity.y as int,
                pre.gyro_bias.y as int,
                ny,
            )
            &&& d.gyroscope.z == spec_measured(
                post.angular_velocity.z as int,
                pre.gyro_bias.z as int,
                nz,
            )
        }
    &&& 0 <= d.noise_level <= SCALE as int
    &&& 850_000_000 <= d.health <= SCALE as int
    &&& (post.tick_count % 500 != 0 ==> 950_000_000 <= d.health)
}

/// Simulator of a six-axis inertial sensor.
pub struct ImuSimulator {
    /// Ground-truth orientation (roll, pitch, yaw), nano-radians.
    pub orientation: EulerAngles,
    /// Ground-truth angular velocity, nano-(rad/s).
    pub angular_velocity: Vec3,
    /// Ground-truth linear acceleration, nano-(m/s^2).
    pub linear_acceleration: Vec3,
    /// Current gyroscope bias, a clamped random walk.
    pub gyro_bias: Vec3,
    /// Accelerometer noise standard deviation, nano-units.
    pub accel_noise_std: i64,
    /// Gyroscope noise standard deviation, nano-units.
    pub gyro_noise_std: i64,
    /// Tick counter.
    pub tick_count: u64,
    /// Pending one-shot accelerometer spike, consumed by the next read.
    pub accel_spike: Option<Vec3>,
    /// Pending one-shot gyroscope spike, consumed by the next read.
    pub gyro_spike: Option<Vec3>,
    /// Private random source.
    pub rng: rand::rngs::StdRng,
}

impl ImuSimulator {
    /// Well-formedness: noise deviations are positive and sane, the bias
    /// stays inside its clamp.
    pub open spec fn wf(self) -> bool {
        &&& 1 <= self.accel_noise_std <= 1_000_000_000_000
        &&& 1 <= self.gyro_noise_std <= 1_000_000_000_000
        &&& -(GYRO_BIAS_BOUND as int) <= self.gyro_bias.x <= GYRO_BIAS_BOUND as int
        &&& -(GYRO_BIAS_BOUND as int) <= self.gyro_bias.y <= GYRO_BIAS_BOUND as int
        &&& -(GYRO_BIAS_BOUND as int) <= self.gyro_bias.z <= GYRO_BIAS_BOUND as int
    }

    /// The initial state, except for the random source.
    pub open spec fn fresh(self) -> bool {
        &&& self.orientation == (EulerAngles { roll: 0, pitch: 0, yaw: 0 })
        &&& self.angular_velocity == Vec3::spec_zero()
        &&& self.linear_acceleration == Vec3::spec_zero()
        &&& self.gyro_bias == (Vec3 { x: 1_000_000, y: 1_000_000, z: 1_000_000 })
        &&& self.accel_noise_std == ACCEL_NOISE_DEFAULT
        &&& self.gyro_noise_std == GYRO_NOISE_DEFAULT
        &&& self.tick_count == 0
        &&& self.accel_spike is None
        &&& self.gyro_spike is None
    }

    /// A new simulator with an entropy-seeded random source.
    pub fn new() -> (s: ImuSimulator)
        ensures
            s.wf(),
            s.fresh(),
    {
        ImuSimulator {
            orientation: EulerAngles { roll: 0, pitch: 0, yaw: 0 },
            angular_velocity: Vec3::zero(),
            linear_acceleration: Vec3::zero(),
            gyro_bias: Vec3 { x: 1_000_000, y: 1_000_000, z: 1_000_000 },
            accel_noise_std: ACCEL_NOISE_DEFAULT,
            gyro_noise_std: GYRO_NOISE_DEFAULT,
            tick_count: 0,
            accel_spike: None,
            gyro_spike: None,
            rng: crate::rng::rng_from_entropy(),
        }
    }

    /// A new simulator with a deterministic seed, for reproducible runs.
    pub fn with_seed(seed: u64) -> (s: ImuSimulator)
        ensures
            s.wf(),
            s.fresh(),
    {
        ImuSimulator {
            orientation: EulerAngles { roll: 0, pitch: 0, yaw: 0 },
            angular_velocity: Vec3::zero(),
            linear_acceleration: Vec3::zero(),
            gyro_bias: Vec3 { x: 1_000_000, y: 1_000_000, z: 1_000_000 },
            accel_noise_std: ACCEL_NOISE_DEFAULT,
            gyro_noise_std: GYRO_NOISE_DEFAULT,
            tick_count: 0,
            accel_spike: None,
            gyro_spike: None,
            rng: crate::rng::rng_seeded(seed),
        }
    }

    /// Advance the ground truth one tick and read a fresh sample.
    ///
    /// The ground-truth evolution is deterministic and stated exactly; the
    /// measured channels are the ground truth (or a pending one-shot spike)
    /// plus body-frame gravity or bias plus noise bounded by six standard
    /// deviations; noise level and health always land in their documented
    /// ranges.
    fn advance_truth(&mut self)
        requires
            old(self).wf(),
        ensures
            final(self).wf(),
            final(self).tick_count == (if old(self).tick_count == u64::MAX {
                0u64
            } else {
                (old(self).tick_count + 1) as u64
            }),
            final(self).angular_velocity == (match old(self).gyro_spike {
                Option::Some(s) => s,
                Option::None => spec_true_angular_velocity(final(self).tick_count as int),
            }),
            final(self).linear_acceleration == (match old(self).accel_spike {
                Option::Some(s) => s,
                Option::None => spec_true_acceleration(final(self).tick_count as int),
            }),
            final(self).orientation == spec_step_orientation(
                old(self).orientation,
                spec_true_angular_velocity(final(self).tick_count as int),
            ),
            final(self).accel_spike is None,
            final(self).gyro_spike is None,
            final(self).accel_noise_std == old(self).accel_noise_std,
            final(self).gyro_noise_std == old(self).gyro_noise_std,
            final(self).gyro_bias == old(self).gyro_bias,
            final(self).rng == old(self).rng,
    {
        proof {
            reveal(spec_true_angular_velocity);
            reveal(spec_true_acceleration);
            reveal(spec_step_orientation);
        }
        self.tick_count = if self.tick_count == u64::MAX {
            0
        } else {
            self.tick_count + 1
        };
        let t = self.tick_count;
        let av = Vec3 {
            x: fx_mul_div(100_000_000, sin_fp(tick_phase(t, 6_000_000)), SCALE),
            y: fx_mul_div(80_000_000, cos_fp(tick_phase(t, 4_000_000)), SCALE),
            z: fx_mul_div(50_000_000, sin_fp(tick_phase(t, 3_000_000)), SCALE),
        };
        self.orientation = EulerAngles {
            roll: wrap_angle(sat_add(self.orientation.roll, fx_mul_div(av.x, 20_000_000, SCALE))),
            pitch: wrap_angle(
                sat_add(self.orientation.pitch, fx_mul_div(av.y, 20_000_000, SCALE)),
            ),
            yaw: wrap_angle(sat_add(self.orientation.yaw, fx_mul_div(av.z, 20_000_000, SCALE))),
        };
        self.angular_velocity = av;
        self.linear_acceleration = Vec3 {
            x: fx_mul_div(500_000_000, sin_fp(tick_phase(t, 2_000_000)), SCALE),
            y: fx_mul_div(300_000_000, cos_fp(tick_phase(t, 3_000_000)), SCALE),
            z: fx_mul_div(200_000_000, sin_fp(tick_phase(t, 1_000_000)), SCALE),
        };
        // Pending one-shot spikes overwrite the ground truth that the next
        // sample measures.
        match self.gyro_spike {
            Option::Some(s) => {
                self.angular_velocity = s;
                self.gyro_spike = None;
            },
            Option::None => {},
        }
        match self.accel_spike {
            Option::Some(s) => {
                self.linear_acceleration = s;
                self.accel_spike = None;
            },
            Option::None => {},
        }
    }

    fn gravity_vector(&self) -> (g: Vec3)
        ensures
            g == spec_gravity_vector(self.orientation),
    {
        proof {
            reveal(spec_gravity_vector);
        }
        Vec3 {
            x: fx_mul_div(-GRAVITY, sin_fp(self.orientation.pitch), SCALE),
            y: fx_mul_div(
                fx_mul_div(GRAVITY, sin_fp(self.orientation.roll), SCALE),
                cos_fp(self.orientation.pitch),
                SCALE,
            ),
            z: fx_mul_div(
                fx_mul_div(GRAVITY, cos_fp(self.orientation.roll), SCALE),
                cos_fp(self.orientation.pitch),
                SCALE,
            ),
        }
    }

    fn update_gyro_bias(&mut self)
        requires
            old(self).wf(),
        ensures
            final(self).wf(),
            *final(self) == (ImuSimulator {
                gyro_bias: final(self).gyro_bias,
                rng: final(self).rng,
                ..*old(self)
            }),
    {
        let bx = crate::rng::gauss(&mut self.rng, GYRO_BIAS_WALK);
        let by = crate::rng::gauss(&mut self.rng, GYRO_BIAS_WALK);
        let bz = crate::rng::gauss(&mut self.rng, GYRO_BIAS_WALK);
        self.gyro_bias = Vec3 {
            x: clamp(sat_add(self.gyro_bias.x, bx), -GYRO_BIAS_BOUND, GYRO_BIAS_BOUND),
            y: clamp(sat_add(self.gyro_bias.y, by), -GYRO_BIAS_BOUND, GYRO_BIAS_BOUND),
            z: clamp(sat_add(self.gyro_bias.z, bz), -GYRO_BIAS_BOUND, GYRO_BIAS_BOUND),
        };
    }

    /// Advance the ground truth one tick and read a fresh sample.
    ///
    /// The ground-truth evolution is deterministic and stated exactly; the
    /// measured channels are the ground truth (or a pending one-shot spike)
    /// plus body-frame gravity or bias plus noise bounded by six standard
    /// deviations; noise level and health always land in their documented
    /// ranges.
    #[verifier::rlimit(80)]
    pub fn read(&mut self) -> (d: ImuData)
        requires
            old(self).wf(),
        ensures
            final(self).wf(),
            spec_read_rel(*old(self), *final(self), d),
    {
        self.advance_truth();
        let gravity = self.gravity_vector();
        let anx = crate::rng::gauss(&mut self.rng, self.accel_noise_std);
        let any = crate::rng::gauss(&mut self.rng, self.accel_noise_std);
        let anz = crate::rng::gauss(&mut self.rng, self.accel_noise_std);
        let measured_accel = Vec3 {
            x: sat_add(sat_add(self.linear_acceleration.x, gravity.x), anx),
            y: sat_add(sat_add(self.linear_acceleration.y, gravity.y), any),
            z: sat_add(sat_add(self.linear_acceleration.z, gravity.z), anz),
        };
        let gnx = crate::rng::gauss(&mut self.rng, self.gyro_noise_std);
        let gny = crate::rng::gauss(&mut self.rng, self.gyro_noise_std);
        let gnz = crate::rng::gauss(&mut self.rng, self.gyro_noise_std);
        let measured_gyro = Vec3 {
            x: sat_add(sat_add(self.angular_velocity.x, self.gyro_bias.x), gnx),
            y: sat_add(sat_add(self.angular_velocity.y, self.gyro_bias.y), gny),
            z: sat_add(sat_add(self.angular_velocity.z, self.gyro_bias.z), gnz),
        };
        self.update_gyro_bias();
        let noise_vec = Vec3 { x: anx, y: any, z: anz };
        let noise_level = clamp(
            fx_mul_div(noise_vec.magnitude(), SCALE, self.accel_noise_std),
            0,
            SCALE,
        );
        let health: i64 = if self.tick_count % 500 == 0 {
            850_000_000 + crate::rng::rand_range(&mut self.rng, 0, 150_000_000)
        } else {
            950_000_000 + crate::rng::rand_range(&mut self.rng, 0, 50_000_000)
        };
        proof {
            let fo = spec_gravity_vector(final(self).orientation);
            assert(measured_accel.x == spec_measured(
                final(self).linear_acceleration.x as int,
                fo.x as int,
                anx as int,
            ));
            assert(measured_accel.y == spec_measured(
                final(self).linear_acceleration.y as int,
                fo.y as int,
                any as int,
            ));
            assert(measured_accel.z == spec_measured(
                final(self).linear_acceleration.z as int,
                fo.z as int,
                anz as int,
            ));
            assert(measured_gyro.x == spec_measured(
                final(self).angular_velocity.x as int,
                old(self).gyro_bias.x as int,
                gnx as int,
            ));
            assert(measured_gyro.y == spec_measured(
                final(self).angular_velocity.y as int,
                old(self).gyro_bias.y as int,
                gny as int,
            ));
            assert(measured_gyro.z == spec_measured(
                final(self).angular_velocity.z as int,
                old(self).gyro_bias.z as int,
                gnz as int,
            ));
        }
        ImuData {
            timestamp: now_millis(),
            acceleration: measured_accel,
            gyroscope: measured_gyro,
            noise_level,
            health,
        }
    }

    /// Inject a fault: spikes become the ground truth consumed by the next
    /// read (one-shot), elevated noise persists until `reset_faults`.
    pub fn inject_fault(&mut self, fault_type: FaultType)
        requires
            old(self).wf(),
        ensures
            final(self).wf(),
            fault_type == FaultType::AccelSpike ==> {
                &&& final(self).accel_spike is Some
                &&& -20 * (SCALE as int) <= final(self).accel_spike->0.x < 20 * (SCALE as int)
                &&& -20 * (SCALE as int) <= final(self).accel_spike->0.y < 20 * (SCALE as int)
                &&& -20 * (SCALE as int) <= final(self).accel_spike->0.z < 20 * (SCALE as int)
                &&& *final(self) == (ImuSimulator {
                    accel_spike: final(self).accel_spike,
                    rng: final(self).rng,
                    ..*old(self)
                })
            },
            fault_type == FaultType::GyroSpike ==> {
                &&& final(self).gyro_spike is Some
                &&& -5 * (SCALE as int) <= final(self).gyro_spike->0.x < 5 * (SCALE as int)
                &&& -5 * (SCALE as int) <= final(self).gyro_spike->0.y < 5 * (SCALE as int)
                &&& -5 * (SCALE as int) <= final(self).gyro_spike->0.z < 5 * (SCALE as int)
                &&& *final(self) == (ImuSimulator {
                    gyro_spike: final(self).gyro_spike,
                    rng: final(self).rng,
                    ..*old(self)
                })
            },
            fault_type == FaultType::HighNoise ==> *final(self) == (ImuSimulator {
                accel_noise_std: 500_000_000,
                gyro_noise_std: 50_000_000,
                ..*old(self)
            }),
    {
        match fault_type {
            FaultType::AccelSpike => {
                let s = Vec3 {
                    x: crate::rng::rand_range(&mut self.rng, -20 * SCALE, 20 * SCALE),
                    y: crate::rng::rand_range(&mut self.rng, -20 * SCALE, 20 * SCALE),
                    z: crate::rng::rand_range(&mut self.rng, -20 * SCALE, 20 * SCALE),
                };
                self.accel_spike = Some(s);
            },
            FaultType::GyroSpike => {
                let s = Vec3 {
                    x: crate::rng::rand_range(&mut self.rng, -5 * SCALE, 5 * SCALE),
                    y: crate::rng::rand_range(&mut self.rng, -5 * SCALE, 5 * SCALE),
                    z: crate::rng::rand_range(&mut self.rng, -5 * SCALE, 5 * SCALE),
                };
                self.gyro_spike = Some(s);
            },
            FaultType::HighNoise => {
                self.accel_noise_std = 500_000_000;
                self.gyro_noise_std = 50_000_000;
            },
        }
    }

    /// Restore the default noise deviations; nothing else changes.
    pub fn reset_faults(&mut self)
        ensures
            *final(self) == (ImuSimulator {
                accel_noise_std: ACCEL_NOISE_DEFAULT,
                gyro_noise_std: GYRO_NOISE_DEFAULT,
                ..*old(self)
            }),
    {
        self.accel_noise_std = ACCEL_NOISE_DEFAULT;
        self.gyro_noise_std = GYRO_NOISE_DEFAULT;
    }
}

impl Default for ImuSimulator {
    /// Same as `new`: default parameters, entropy-seeded randomness.
    fn default() -> (s: Self)
        ensures
            s.wf(),
            s.fresh(),
    {
        ImuSimulator::new()
    }
}

} // verus!
