//! Positioning (satellite-navigation) sensor simulator.
//!
//! Ground truth follows a closed circular path around a fixed center with a
//! sinusoidal altitude oscillation; signal quality (dilution of precision
//! and satellite count) evolves as a bounded random walk and drifts back
//! toward good values; emitted fixes add noise scaled by the current
//! dilution of precision.

use vstd::prelude::*;

verus! {

use crate::clock::now_millis;
use crate::fixed::{
    SCALE, SAT, spec_clamp, spec_mul_div, spec_sat_add, spec_tick_phase, div_tz, fx_mul_div,
    sat_add, clamp, tick_phase,
};
use crate::trig::{spec_sin, spec_cos, spec_wrap, sin_fp, cos_fp, wrap_angle, HALF_PI_N};
use crate::fusion::{DEG_TO_RAD, RAD_TO_DEG};
use crate::models::{Vec3, GeoPos, GpsData};

/// Faults that can be injected into the positioning simulator.
#[derive(Debug, Clone, Copy, PartialEq, Eq, Structural)]
pub enum GpsFaultType {
    /// Insufficient satellites for a 3D fix.
    SignalLoss,
    /// Degraded dilution of precision and noise.
    PoorAccuracy,
    /// Sudden one-shot position error.
    PositionJump,
}

/// Center of the circular ground-truth path: latitude, nano-degrees.
pub const CENTER_LAT: i64 = 39_739_200_000;

/// Center of the circular ground-truth path: longitude, nano-degrees.
pub const CENTER_LON: i64 = -104_990_300_000;

/// Base altitude of the path, nano-meters.
pub const BASE_ALT: i64 = 1_655_000_000_000;

/// Radius of the path, nano-degrees (about 111 meters).
pub const PATH_RADIUS: i64 = 1_000_000;

/// Angular advance of the path per update, nano-radians.
pub const PATH_RATE: i64 = 50_000_000;

/// Amplitude of the altitude oscillation, nano-meters.
pub const ALT_AMPLITUDE: i64 = 50_000_000_000;

/// Phase advance of the altitude oscillation per update, nano-radians.
pub const ALT_RATE: i64 = 20_000_000;

/// Ground speed along the path (radius times meters-per-degree times
/// angular rate), nano-(m/s).
pub const PATH_SPEED: i64 = 5_566_000_000;

/// Meters per degree of latitude (unscaled divisor).
pub const M_PER_DEG: i64 = 111_320;

/// Default dilution of precision (1.2, good accuracy).
pub const HDOP_DEFAULT: i64 = 1_200_000_000;

/// Default position noise standard deviation, nano-meters (2.5 m).
pub const POS_NOISE_DEFAULT: i64 = 2_500_000_000;

/// The path angle at an update count, nano-radians (saturated, unwrapped).
pub open spec fn spec_path_angle(t: int) -> int {
    spec_tick_phase(t, PATH_RATE as int)
}

/// Ground-truth latitude at an update count.
#[verifier::opaque]
pub open spec fn spec_true_lat(t: int) -> int {
    CENTER_LAT + spec_mul_div(PATH_RADIUS as int, spec_cos(spec_path_angle(t)), SCALE as int)
}

/// Ground-truth longitude at an update count: the east offset is divided by
/// the cosine of the latitude, guarded against a degenerate divisor.
#[verifier::opaque]
pub open spec fn spec_true_lon(t: int) -> int {
    let lat_rad = spec_mul_div(spec_true_lat(t), DEG_TO_RAD as int, SCALE as int);
    let cl = spec_cos(lat_rad);
    let off = spec_mul_div(PATH_RADIUS as int, spec_sin(spec_path_angle(t)), SCALE as int);
    CENTER_LON + (if cl > 100_000 {
        spec_mul_div(off, SCALE as int, cl)
    } else {
        off
    })
}

/// Ground-truth altitude at an update count.
#[verifier::opaque]
pub open spec fn spec_true_alt(t: int) -> int {
    BASE_ALT + spec_mul_div(
        ALT_AMPLITUDE as int,
        spec_sin(spec_tick_phase(t, ALT_RATE as int)),
        SCALE as int,
    )
}

/// Ground-truth heading at an update count: tangent to the circle, wrapped.
#[verifier::opaque]
pub open spec fn spec_true_heading(t: int) -> int {
    spec_wrap(spec_sat_add(spec_path_angle(t), HALF_PI_N as int))
}

/// Ground-truth velocity (north, east, vertical) at an update count.
#[verifier::opaque]
pub open spec fn spec_true_velocity(t: int) -> Vec3 {
    Vec3 {
        x: spec_mul_div(PATH_SPEED as int, spec_cos(spec_true_heading(t)), SCALE as int) as i64,
        y: spec_mul_div(PATH_SPEED as int, spec_sin(spec_true_heading(t)), SCALE as int) as i64,
        z: spec_mul_div(
            SCALE as int,
            spec_cos(spec_tick_phase(t, ALT_RATE as int)),
            SCALE as int,
        ) as i64,
    }
}

/// The divisor that turns metric east noise into longitude degrees:
/// meters-per-degree scaled by the cosine of the latitude, guarded against
/// a degenerate cosine.
pub open spec fn spec_lon_divisor(lat: int) -> int {
    let lat_rad = spec_mul_div(lat, DEG_TO_RAD as int, SCALE as int);
    let cl = spec_cos(lat_rad);
    if cl > 100_000 {
        spec_mul_div(M_PER_DEG as int, cl, SCALE as int)
    } else {
        M_PER_DEG as int
    }
}

/// Positioning health: 0.6 of the normalized satellite count plus 0.4 of
/// the inverse dilution of precision, each capped at one.
pub open spec fn spec_gps_health(sats: int, hdop: int) -> int {
    let ss = spec_clamp(spec_mul_div(sats, SCALE as int, 12), 0, SCALE as int);
    let hs = spec_clamp(spec_mul_div(3_000_000_000, SCALE as int, hdop), 0, SCALE as int);
    spec_sat_add(
        spec_mul_div(ss, 600_000_000, SCALE as int),
        spec_mul_div(hs, 400_000_000, SCALE as int),
    )
}

/// Everything one `get_latest` call promises, as a relation between the
/// state before, the state after (only the random source may differ), and
/// the emitted fix: quality figures echoed exactly, health as its formula,
/// and the position channels up to their dilution-scaled noise.
pub open spec fn spec_latest_rel(pre: GpsSimulator, post: GpsSimulator, d: GpsData) -> bool {
    &&& post == (GpsSimulator { rng: post.rng, ..pre })
    &&& d.speed == pre.speed
    &&& d.heading == spec_heading_degrees(pre.heading as int)
    &&& 0 <= d.heading < 360_000_000_000
    &&& d.hdop == pre.hdop
    &&& d.satellites == pre.satellites
    &&& d.health == spec_gps_health(pre.satellites as int, pre.hdop as int)
    &&& 0 <= d.health <= SCALE as int
    &&& exists|n: int|
        {
            &&& -6 * spec_mul_div(pre.hdop as int, pre.position_noise_std as int, SCALE as int)
                <= n * (M_PER_DEG as int) <= 6 * spec_mul_div(
                pre.hdop as int,
                pre.position_noise_std as int,
                SCALE as int,
            ) + (M_PER_DEG as int)
            &&& d.latitude == spec_sat_add(pre.position.lat as int, n)
        }
    &&& exists|n: int|
        {
            &&& -6 * spec_mul_div(pre.hdop as int, pre.position_noise_std as int, SCALE as int)
                <= n * spec_lon_divisor(pre.position.lat as int) <= 6 * spec_mul_div(
                pre.hdop as int,
                pre.position_noise_std as int,
                SCALE as int,
            )
            &&& d.longitude == spec_sat_add(pre.position.lon as int, n)
        }
    &&& exists|n: int|
        {
            &&& -9 * spec_mul_div(pre.hdop as int, pre.position_noise_std as int, SCALE as int)
                <= n <= 9 * spec_mul_div(
                pre.hdop as int,
                pre.position_noise_std as int,
                SCALE as int,
            )
            &&& d.altitude == spec_sat_add(pre.position.alt as int, n)
        }
}

/// Simulator of a satellite-navigation receiver.
pub struct GpsSimulator {
    /// Ground-truth position.
    pub position: GeoPos,
    /// Ground-truth velocity (north, east, vertical), nano-(m/s).
    pub velocity: Vec3,
    /// Ground-truth heading, nano-radians, wrapped.
    pub heading: i64,
    /// Ground speed, nano-(m/s).
    pub speed: i64,
    /// Horizontal dilution of precision, scaled by `SCALE`.
    pub hdop: i64,
    /// Number of visible satellites.
    pub satellites: u8,
    /// Position noise standard deviation, nano-meters.
    pub position_noise_std: i64,
    /// Last position seen with a usable fix.
    pub last_good_position: GeoPos,
    /// Update counter.
    pub update_count: u64,
    /// Private random source.
    pub rng: rand::rngs::StdRng,
}

impl GpsSimulator {
    /// Well-formedness: quality figures stay in sane, positive ranges.
    pub open spec fn wf(self) -> bool {
        &&& 100_000_000 <= self.hdop <= 20_000_000_000
        &&& 1 <= self.position_noise_std <= 100_000_000_000
        &&& self.satellites <= 50
    }

    /// The initial state, except for the random source.
    pub open spec fn fresh(self) -> bool {
        &&& self.position == (GeoPos { lat: CENTER_LAT, lon: CENTER_LON, alt: BASE_ALT })
        &&& self.velocity == Vec3::spec_zero()
        &&& self.heading == 0
        &&& self.speed == 0
        &&& self.hdop == HDOP_DEFAULT
        &&& self.satellites == 12
        &&& self.position_noise_std == POS_NOISE_DEFAULT
        &&& self.last_good_position == (GeoPos {
            lat: CENTER_LAT,
            lon: CENTER_LON,
            alt: BASE_ALT,
        })
        &&& self.update_count == 0
    }

    /// A new simulator with an entropy-seeded random source.
    pub fn new() -> (s: GpsSimulator)
        ensures
            s.wf(),
            s.fresh(),
    {
        GpsSimulator {
            position: GeoPos { lat: CENTER_LAT, lon: CENTER_LON, alt: BASE_ALT },
            velocity: Vec3::zero(),
            heading: 0,
            speed: 0,
            hdop: HDOP_DEFAULT,
            satellites: 12,
            position_noise_std: POS_NOISE_DEFAULT,
            last_good_position: GeoPos { lat: CENTER_LAT, lon: CENTER_LON, alt: BASE_ALT },
            update_count: 0,
            rng: crate::rng::rng_from_entropy(),
        }
    }

    /// A new simulator with a deterministic seed, for reproducible runs.
    pub fn with_seed(seed: u64) -> (s: GpsSimulator)
        ensures
            s.wf(),
            s.fresh(),
    {
        GpsSimulator {
            position: GeoPos { lat: CENTER_LAT, lon: CENTER_LON, alt: BASE_ALT },
            velocity: Vec3::zero(),
            heading: 0,
            speed: 0,
            hdop: HDOP_DEFAULT,
            satellites: 12,
            position_noise_std: POS_NOISE_DEFAULT,
            last_good_position: GeoPos { lat: CENTER_LAT, lon: CENTER_LON, alt: BASE_ALT },
            update_count: 0,
            rng: crate::rng::rng_seeded(seed),
        }
    }

    fn simulate_movement(&mut self)
        ensures
            final(self).position == (GeoPos {
                lat: spec_true_lat(final(self).update_count as int) as i64,
                lon: spec_true_lon(final(self).update_count as int) as i64,
                alt: spec_true_alt(final(self).update_count as int) as i64,
            }),
            final(self).speed == PATH_SPEED,
            final(self).heading == spec_true_heading(final(self).update_count as int),
            final(self).velocity == spec_true_velocity(final(self).update_count as int),
            *final(self) == (GpsSimulator {
                position: final(self).position,
                speed: final(self).speed,
                heading: final(self).heading,
                velocity: final(self).velocity,
                ..*old(self)
            }),
    {
        proof {
            reveal(spec_true_lat);
            reveal(spec_true_lon);
            reveal(spec_true_alt);
            reveal(spec_true_heading);
            reveal(spec_true_velocity);
        }
        let t = self.update_count;
        let ang = tick_phase(t, PATH_RATE);
        let lat_off = fx_mul_div(PATH_RADIUS, cos_fp(ang), SCALE);
        let lat = CENTER_LAT + lat_off;
        let lat_rad = fx_mul_div(lat, DEG_TO_RAD, SCALE);
        let cl = cos_fp(lat_rad);
        let lon_off = fx_mul_div(PATH_RADIUS, sin_fp(ang), SCALE);
        let lon = CENTER_LON + (if cl > 100_000 {
            fx_mul_div(lon_off, SCALE, cl)
        } else {
            lon_off
        });
        let alt = BASE_ALT + fx_mul_div(ALT_AMPLITUDE, sin_fp(tick_phase(t, ALT_RATE)), SCALE);
        let heading = wrap_angle(sat_add(ang, HALF_PI_N));
        self.position = GeoPos { lat, lon, alt };
        self.speed = PATH_SPEED;
        self.heading = heading;
        self.velocity = Vec3 {
            x: fx_mul_div(PATH_SPEED, cos_fp(heading), SCALE),
            y: fx_mul_div(PATH_SPEED, sin_fp(heading), SCALE),
            z: fx_mul_div(SCALE, cos_fp(tick_phase(t, ALT_RATE)), SCALE),
        };
    }

    fn update_signal_quality(&mut self)
        requires
            old(self).wf(),
        ensures
            final(self).wf(),
            *final(self) == (GpsSimulator {
                hdop: final(self).hdop,
                satellites: final(self).satellites,
                rng: final(self).rng,
                ..*old(self)
            }),
            final(self).update_count % 20 == 0 ==> 800_000_000 <= final(self).hdop
                <= 8_000_000_000,
            final(self).update_count % 20 == 0 ==> 4 <= final(self).satellites <= 14,
            final(self).update_count % 20 == 0 && final(self).hdop < 1_990_000_000 ==> final(self).satellites >= 10,
            final(self).update_count % 20 == 0 && final(self).hdop >= 4_000_000_000 ==> final(self).satellites <= 6,
            final(self).update_count % 20 == 0 && 2_000_000_000 <= final(self).hdop
                && final(self).hdop < 3_990_000_000 ==> 6 <= final(self).satellites <= 9,
            final(self).update_count % 20 != 0 ==> final(self).satellites == old(self).satellites,
            final(self).update_count % 20 != 0 ==> final(self).hdop == (if old(self).hdop
                > 1_500_000_000 {
                old(self).hdop - 10_000_000
            } else {
                old(self).hdop as int
            }),
    {
        if self.update_count % 20 == 0 {
            let delta = crate::rng::rand_range(&mut self.rng, -300_000_000, 300_000_000);
            self.hdop = clamp(sat_add(self.hdop, delta), 800_000_000, 8_000_000_000);
            let sats: i64 = if self.hdop < 2_000_000_000 {
                crate::rng::rand_range(&mut self.rng, 10, 15)
            } else if self.hdop < 4_000_000_000 {
                crate::rng::rand_range(&mut self.rng, 6, 10)
            } else {
                crate::rng::rand_range(&mut self.rng, 4, 7)
            };
            self.satellites = sats as u8;
        }
        // Signal geometry drifts back toward good values between the
        // random adjustments.
        if self.hdop > 1_500_000_000 {
            self.hdop = self.hdop - 10_000_000;
        }
    }

    /// Advance the ground-truth path one update and refresh the signal
    /// quality figures; retains the position as last-known-good when the
    /// fix is usable.
    pub fn update(&mut self)
        requires
            old(self).wf(),
        ensures
            final(self).wf(),
            final(self).update_count == (if old(self).update_count == u64::MAX {
                0u64
            } else {
                (old(self).update_count + 1) as u64
            }),
            final(self).position == (GeoPos {
                lat: spec_true_lat(final(self).update_count as int) as i64,
                lon: spec_true_lon(final(self).update_count as int) as i64,
                alt: spec_true_alt(final(self).update_count as int) as i64,
            }),
            final(self).speed == PATH_SPEED,
            final(self).heading == spec_true_heading(final(self).update_count as int),
            final(self).velocity == spec_true_velocity(final(self).update_count as int),
            final(self).position_noise_std == old(self).position_noise_std,
            final(self).update_count % 20 == 0 ==> 800_000_000 <= final(self).hdop
                <= 8_000_000_000,
            final(self).update_count % 20 == 0 ==> 4 <= final(self).satellites <= 14,
            final(self).update_count % 20 == 0 && final(self).hdop < 1_990_000_000 ==> final(self).satellites >= 10,
            final(self).update_count % 20 == 0 && final(self).hdop >= 4_000_000_000 ==> final(self).satellites <= 6,
            final(self).update_count % 20 == 0 && 2_000_000_000 <= final(self).hdop
                && final(self).hdop < 3_990_000_000 ==> 6 <= final(self).satellites <= 9,
            final(self).update_count % 20 != 0 ==> final(self).satellites == old(self).satellites,
            final(self).update_count % 20 != 0 ==> final(self).hdop == (if old(self).hdop
                > 1_500_000_000 {
                old(self).hdop - 10_000_000
            } else {
                old(self).hdop as int
            }),
            final(self).satellites >= 4 && final(self).hdop < 5_000_000_000 ==> final(self).last_good_position == final(self).position,
            !(final(self).satellites >= 4 && final(self).hdop < 5_000_000_000) ==> final(self).last_good_position == old(self).last_good_position,
    {
        self.update_count = if self.update_count == u64::MAX {
            0
        } else {
            self.update_count + 1
        };
        self.simulate_movement();
        self.update_signal_quality();
        if self.satellites >= 4 && self.hdop < 5_000_000_000 {
            self.last_good_position = GeoPos {
                lat: self.position.lat,
                lon: self.position.lon,
                alt: self.position.alt,
            };
        }
    }

    /// A freshly noised reading of the current ground truth, without
    /// advancing it: noise scales with the dilution of precision, vertical
    /// noise half again as large, and health combines satellite count and
    /// inverse dilution of precision.
    pub fn get_latest(&mut self) -> (d: GpsData)
        requires
            old(self).wf(),
        ensures
            final(self).wf(),
            spec_latest_rel(*old(self), *final(self), d),
    {
        let noise_scale = fx_mul_div(self.hdop, self.position_noise_std, SCALE);
        proof {
            crate::trig::lemma_mul_div_nonneg(
                self.hdop as int,
                self.position_noise_std as int,
                SCALE as int,
            );
            crate::trig::lemma_mul_div_le(
                self.hdop as int,
                self.position_noise_std as int,
                SCALE as int,
                20_000_000_000,
                100_000_000_000,
                2_000_000_000_000,
            );
        }
        let g1 = crate::rng::gauss(&mut self.rng, noise_scale);
        let lat_noise = crate::trig::fx_div(g1, M_PER_DEG);
        let lat = sat_add(self.position.lat, lat_noise);
        let lat_rad = fx_mul_div(self.position.lat, DEG_TO_RAD, SCALE);
        let cl = cos_fp(lat_rad);
        let lon_div = if cl > 100_000 {
            fx_mul_div(M_PER_DEG, cl, SCALE)
        } else {
            M_PER_DEG
        };
        proof {
            assert(lon_div == spec_lon_divisor(self.position.lat as int));
        }
        let g2 = crate::rng::gauss(&mut self.rng, noise_scale);
        let lon_noise = if lon_div > 0 {
            crate::trig::fx_div(g2, lon_div)
        } else {
            crate::trig::fx_div(g2, M_PER_DEG)
        };
        let lon = sat_add(self.position.lon, lon_noise);
        let g3 = crate::rng::gauss(&mut self.rng, noise_scale);
        let alt_noise = sat_add(g3, crate::trig::fx_div(g3, 2));
        let alt = sat_add(self.position.alt, alt_noise);
        let health = self.calculate_health();
        let heading_deg = wrapped_heading_degrees(self.heading);
        proof {
            assert(lat_noise * (M_PER_DEG as int) <= 6 * (noise_scale as int) + (
            M_PER_DEG as int) && -6 * (noise_scale as int) <= lat_noise * (M_PER_DEG as int))
                by (nonlinear_arith)
                requires
                    lat_noise == div_tz(g1 as int, M_PER_DEG as int),
                    -6 * (noise_scale as int) <= g1 <= 6 * (noise_scale as int),
                    M_PER_DEG == 111_320i64,
                    noise_scale >= 0,
            ;
            assert(-6 * (noise_scale as int) <= lon_noise * (lon_div as int) <= 6 * (
            noise_scale as int)) by (nonlinear_arith)
                requires
                    lon_noise == div_tz(g2 as int, lon_div as int),
                    lon_div >= 1,
                    -6 * (noise_scale as int) <= g2 <= 6 * (noise_scale as int),
                    noise_scale >= 0,
            ;
            assert(-9 * (noise_scale as int) <= alt_noise <= 9 * (noise_scale as int))
                by (nonlinear_arith)
                requires
                    alt_noise == spec_clamp(
                        g3 + div_tz(g3 as int, 2),
                        -(SAT as int),
                        SAT as int,
                    ),
                    -6 * (noise_scale as int) <= g3 <= 6 * (noise_scale as int),
                    noise_scale >= 0,
                    SAT == 4_000_000_000_000_000_000i64,
            ;
        }
        GpsData {
            timestamp: now_millis(),
            latitude: lat,
            longitude: lon,
            altitude: alt,
            speed: self.speed,
            heading: heading_deg,
            hdop: self.hdop,
            satellites: self.satellites,
            health,
        }
    }

    /// Positioning health from satellite count and dilution of precision,
    /// in `[0, SCALE]`.
    fn calculate_health(&self) -> (r: i64)
        requires
            self.wf(),
        ensures
            r == spec_gps_health(self.satellites as int, self.hdop as int),
            0 <= r <= SCALE as int,
    {
        let ss = clamp(fx_mul_div(self.satellites as i64, SCALE, 12), 0, SCALE);
        let hs = clamp(fx_mul_div(3_000_000_000, SCALE, self.hdop), 0, SCALE);
        proof {
            crate::trig::lemma_mul_div_le(ss as int, 600_000_000, SCALE as int, SCALE as int,
                600_000_000, 600_000_000);
            crate::trig::lemma_mul_div_nonneg(ss as int, 600_000_000, SCALE as int);
            crate::trig::lemma_mul_div_le(hs as int, 400_000_000, SCALE as int, SCALE as int,
                400_000_000, 400_000_000);
            crate::trig::lemma_mul_div_nonneg(hs as int, 400_000_000, SCALE as int);
        }
        sat_add(fx_mul_div(ss, 600_000_000, SCALE), fx_mul_div(hs, 400_000_000, SCALE))
    }

    /// Inject a positioning fault: degraded quality persists until
    /// `reset_faults`; the position jump is a one-shot ground-truth offset.
    pub fn inject_fault(&mut self, fault_type: GpsFaultType)
        requires
            old(self).wf(),
        ensures
            final(self).wf(),
            fault_type == GpsFaultType::SignalLoss ==> *final(self) == (GpsSimulator {
                satellites: 2u8,
                hdop: 15_000_000_000i64,
                ..*old(self)
            }),
            fault_type == GpsFaultType::PoorAccuracy ==> *final(self) == (GpsSimulator {
                satellites: 4u8,
                hdop: 8_000_000_000i64,
                position_noise_std: 15_000_000_000i64,
                ..*old(self)
            }),
            fault_type == GpsFaultType::PositionJump ==> {
                &&& *final(self) == (GpsSimulator {
                    position: final(self).position,
                    rng: final(self).rng,
                    ..*old(self)
                })
                &&& final(self).position.alt == old(self).position.alt
                &&& exists|jlat: int, jlon: int|
                    {
                        &&& -1_000_000 <= jlat < 1_000_000
                        &&& -1_000_000 <= jlon < 1_000_000
                        &&& final(self).position.lat == spec_sat_add(
                            old(self).position.lat as int,
                            jlat,
                        )
                        &&& final(self).position.lon == spec_sat_add(
                            old(self).position.lon as int,
                            jlon,
                        )
                    }
            },
    {
        match fault_type {
            GpsFaultType::SignalLoss => {
                self.satellites = 2;
                self.hdop = 15_000_000_000;
            },
            GpsFaultType::PoorAccuracy => {
                self.hdop = 8_000_000_000;
                self.satellites = 4;
                self.position_noise_std = 15_000_000_000;
            },
            GpsFaultType::PositionJump => {
                let jlat = crate::rng::rand_range(&mut self.rng, -1_000_000, 1_000_000);
                let jlon = crate::rng::rand_range(&mut self.rng, -1_000_000, 1_000_000);
                let lat = sat_add(self.position.lat, jlat);
                let lon = sat_add(self.position.lon, jlon);
                self.position = GeoPos { lat, lon, alt: self.position.alt };
                proof {
                    assert(self.position.lat == spec_sat_add(
                        old(self).position.lat as int,
                        jlat as int,
                    ));
                    assert(self.position.lon == spec_sat_add(
                        old(self).position.lon as int,
                        jlon as int,
                    ));
                }
            },
        }
    }

    /// Restore the default quality and noise parameters; nothing else
    /// changes.
    pub fn reset_faults(&mut self)
        ensures
            final(self).wf(),
            *final(self) == (GpsSimulator {
                hdop: HDOP_DEFAULT,
                satellites: 12u8,
                position_noise_std: POS_NOISE_DEFAULT,
                ..*old(self)
            }),
    {
        self.hdop = HDOP_DEFAULT;
        self.satellites = 12;
        self.position_noise_std = POS_NOISE_DEFAULT;
    }

    /// The current ground-truth position, without noise.
    pub fn get_true_position(&self) -> (p: GeoPos)
        ensures
            p == self.position,
    {
        GeoPos { lat: self.position.lat, lon: self.position.lon, alt: self.position.alt }
    }

    /// The current ground-truth velocity, without noise.
    pub fn get_true_velocity(&self) -> (v: Vec3)
        ensures
            v == self.velocity,
    {
        Vec3 { x: self.velocity.x, y: self.velocity.y, z: self.velocity.z }
    }
}

impl Default for GpsSimulator {
    /// Same as `new`: the default path and quality, entropy-seeded
    /// randomness.
    fn default() -> (s: Self)
        ensures
            s.wf(),
            s.fresh(),
    {
        GpsSimulator::new()
    }
}

/// A wrapped nano-radian heading converted to nano-degrees in
/// `[0, 360 * SCALE)`.
pub open spec fn spec_heading_degrees(h: int) -> int {
    let deg = spec_mul_div(spec_wrap(h), RAD_TO_DEG as int, SCALE as int);
    if deg < 0 {
        deg + 360_000_000_000
    } else {
        deg
    }
}

fn wrapped_heading_degrees(h: i64) -> (r: i64)
    ensures
        r == spec_heading_degrees(h as int),
        0 <= r < 360_000_000_000,
{
    let w = wrap_angle(h);
    let deg = fx_mul_div(w, RAD_TO_DEG, SCALE);
    proof {
        crate::trig::lemma_mul_div_le(w as int, RAD_TO_DEG as int, SCALE as int,
            3_141_592_654, RAD_TO_DEG as int, 180_100_000_000);
    }
    if deg < 0 {
        deg + 360_000_000_000
    } else {
        deg
    }
}

} // verus!
