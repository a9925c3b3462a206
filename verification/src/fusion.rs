//! Complementary filter for inertial/positioning sensor fusion.
//!
//! The filter blends a gyroscope-integrated orientation (responsive, drifts)
//! with an accelerometer-derived orientation (noisy, drift-free) by
//! spherical linear interpolation, low-pass-blends the position toward the
//! positioning fix, and mixes velocities with fixed weights.  Every update
//! renormalizes the orientation, and the contracts prove the squared norm of
//! the published orientation stays within one part in a million of one.

use vstd::prelude::*;

verus! {

use vstd::math::abs;
use vstd::arithmetic::div_mod::{
    lemma_fundamental_div_mod, lemma_mod_pos_bound, lemma_div_by_multiple, lemma_div_of0,
};
use crate::fixed::{
    SCALE, SAT, div_tz, spec_clamp, spec_mul_div, spec_sat_add, spec_isqrt, is_sqrt,
    lemma_isqrt_exists, lemma_isqrt_unique, lemma_square_bound, lemma_mul_div_zero,
    fx_mul_div, sat_add, sat_sub, clamp, isqrt_u128, spec_blend, lemma_mul_div_exact,
    lemma_div_sq_bounds,
};
use crate::models::{
    Quaternion, Vec3, GeoPos, EulerAngles, ImuData, GpsData, FusedSensorData,
    lemma_component_div_unit,
};

/// Norm threshold (one millionth of a unit) below which a quaternion is
/// treated as collapsed and replaced by the identity.
pub const NORM_EPS: i64 = 1000;

/// One normalization pass: divide each component by the integer square root
/// of the squared norm, or fall back to the identity when the norm has
/// collapsed below `NORM_EPS`.
pub open spec fn spec_qnorm_pass(q: Quaternion) -> Quaternion {
    let n = q.spec_norm_sq();
    let m = spec_isqrt(n);
    if m <= NORM_EPS {
        Quaternion::spec_identity()
    } else {
        Quaternion {
            w: div_tz((q.w as int) * (SCALE as int), m) as i64,
            x: div_tz((q.x as int) * (SCALE as int), m) as i64,
            y: div_tz((q.y as int) * (SCALE as int), m) as i64,
            z: div_tz((q.z as int) * (SCALE as int), m) as i64,
        }
    }
}

/// Full normalization: two passes.  The first pass lands near the unit
/// sphere; the second pass divides by a square root that is itself within a
/// few nano-units of one, so the rounding error of the result is a few parts
/// per billion.
pub open spec fn spec_qnormalize(q: Quaternion) -> Quaternion {
    spec_qnorm_pass(spec_qnorm_pass(q))
}

fn qnorm_pass(q: Quaternion) -> (r: Quaternion)
    requires
        -(SAT as int) <= q.w <= SAT as int,
        -(SAT as int) <= q.x <= SAT as int,
        -(SAT as int) <= q.y <= SAT as int,
        -(SAT as int) <= q.z <= SAT as int,
    ensures
        r == spec_qnorm_pass(q),
        -(SCALE as int) <= r.w <= SCALE as int,
        -(SCALE as int) <= r.x <= SCALE as int,
        -(SCALE as int) <= r.y <= SCALE as int,
        -(SCALE as int) <= r.z <= SCALE as int,
{
    proof {
        lemma_square_bound(q.w as int, SAT as int);
        lemma_square_bound(q.x as int, SAT as int);
        lemma_square_bound(q.y as int, SAT as int);
        lemma_square_bound(q.z as int, SAT as int);
    }
    let n: u128 = (q.w as i128 * q.w as i128) as u128 + (q.x as i128 * q.x as i128) as u128 + (
    q.y as i128 * q.y as i128) as u128 + (q.z as i128 * q.z as i128) as u128;
    let m = isqrt_u128(n);
    if m <= NORM_EPS as u64 {
        Quaternion { w: SCALE, x: 0, y: 0, z: 0 }
    } else {
        proof {
            assert(m < 0x8000_0000_0000_0000u64) by (nonlinear_arith)
                requires
                    is_sqrt(n as int, m as int),
                    n as int <= 4 * (SAT as int) * (SAT as int),
                    SAT == 4_000_000_000_000_000_000i64,
            ;
            lemma_component_div_unit(q.w as int, n as int, m as int);
            lemma_component_div_unit(q.x as int, n as int, m as int);
            lemma_component_div_unit(q.y as int, n as int, m as int);
            lemma_component_div_unit(q.z as int, n as int, m as int);
        }
        let mi = m as i64;
        Quaternion {
            w: fx_mul_div(q.w, SCALE, mi),
            x: fx_mul_div(q.x, SCALE, mi),
            y: fx_mul_div(q.y, SCALE, mi),
            z: fx_mul_div(q.z, SCALE, mi),
        }
    }
}

/// After one normalization pass through a square root `m >= t`, the squared
/// norm is at least `SCALE^2 - 8 SCALE`; and when the pass divides by a root
/// within ten nano-units of one (`t >= SCALE - 10`) it is also at most
/// `SCALE^2 + 3 SCALE`.
proof fn lemma_pass_norm_bounds(q: Quaternion, t: int)
    requires
        t > NORM_EPS as int,
        spec_isqrt(q.spec_norm_sq()) >= t,
        is_sqrt(q.spec_norm_sq(), spec_isqrt(q.spec_norm_sq())),
    ensures
        spec_qnorm_pass(q).spec_norm_sq() >= (SCALE as int) * (SCALE as int) - 8 * (SCALE as int),
        t >= SCALE as int - 10 ==> spec_qnorm_pass(q).spec_norm_sq() <= (SCALE as int) * (
        SCALE as int) + 3 * (SCALE as int),
{
    let n = q.spec_norm_sq();
    let m = spec_isqrt(n);
    let r = spec_qnorm_pass(q);
    lemma_square_bound(q.w as int, 0x8000_0000_0000_0000int);
    lemma_square_bound(q.x as int, 0x8000_0000_0000_0000int);
    lemma_square_bound(q.y as int, 0x8000_0000_0000_0000int);
    lemma_square_bound(q.z as int, 0x8000_0000_0000_0000int);
    lemma_component_div_unit(q.w as int, n, m);
    lemma_component_div_unit(q.x as int, n, m);
    lemma_component_div_unit(q.y as int, n, m);
    lemma_component_div_unit(q.z as int, n, m);
    let rw = div_tz((q.w as int) * (SCALE as int), m);
    let rx = div_tz((q.x as int) * (SCALE as int), m);
    let ry = div_tz((q.y as int) * (SCALE as int), m);
    let rz = div_tz((q.z as int) * (SCALE as int), m);
    assert(r.w == rw && r.x == rx && r.y == ry && r.z == rz);
    lemma_div_sq_bounds(q.w as int, m);
    lemma_div_sq_bounds(q.x as int, m);
    lemma_div_sq_bounds(q.y as int, m);
    lemma_div_sq_bounds(q.z as int, m);
    let s2 = (SCALE as int) * (SCALE as int);
    let mm = m * m;
    let rsum = rw * rw + rx * rx + ry * ry + rz * rz;
    let asum = abs(q.w as int) + abs(q.x as int) + abs(q.y as int) + abs(q.z as int);
    assert(asum <= 4 * m);
    assert(rsum * mm == rw * rw * mm + rx * rx * mm + ry * ry * mm + rz * rz * mm)
        by (nonlinear_arith)
        requires
            rsum == rw * rw + rx * rx + ry * ry + rz * rz,
    ;
    assert(n * s2 == (q.w as int) * (q.w as int) * s2 + (q.x as int) * (q.x as int) * s2 + (
    q.y as int) * (q.y as int) * s2 + (q.z as int) * (q.z as int) * s2) by (nonlinear_arith)
        requires
            n == (q.w as int) * (q.w as int) + (q.x as int) * (q.x as int) + (q.y as int) * (
            q.y as int) + (q.z as int) * (q.z as int),
    ;
    assert(2 * m * (SCALE as int) * asum == 2 * m * (SCALE as int) * abs(q.w as int) + 2 * m * (
    SCALE as int) * abs(q.x as int) + 2 * m * (SCALE as int) * abs(q.y as int) + 2 * m * (
    SCALE as int) * abs(q.z as int)) by (nonlinear_arith)
        requires
            asum == abs(q.w as int) + abs(q.x as int) + abs(q.y as int) + abs(q.z as int),
    ;
    assert(rsum * mm <= n * s2);
    assert(rsum * mm >= n * s2 - 2 * m * (SCALE as int) * asum);
    assert(2 * m * (SCALE as int) * asum <= 8 * (SCALE as int) * mm && n * s2 >= mm * s2)
        by (nonlinear_arith)
        requires
            asum <= 4 * m,
            0 <= asum,
            m >= 1,
            mm == m * m,
            n >= mm,
            s2 == (SCALE as int) * (SCALE as int),
            SCALE == 1_000_000_000i64,
    ;
    assert(mm >= 1) by (nonlinear_arith)
        requires
            mm == m * m,
            m >= 1,
    ;
    assert(rsum >= s2 - 8 * (SCALE as int)) by (nonlinear_arith)
        requires
            rsum * mm >= mm * s2 - 8 * (SCALE as int) * mm,
            mm >= 1,
            s2 == (SCALE as int) * (SCALE as int),
            SCALE == 1_000_000_000i64,
    ;
    if t >= SCALE as int - 10 {
        assert(rsum <= s2 + 3 * (SCALE as int)) by (nonlinear_arith)
            requires
                rsum * mm <= n * s2,
                mm == m * m,
                n < (m + 1) * (m + 1),
                m >= SCALE as int - 10,
                s2 == (SCALE as int) * (SCALE as int),
                SCALE == 1_000_000_000i64,
        ;
    }
    assert(r.spec_norm_sq() == rsum);
}

/// The two-pass normalization always lands with a squared norm within
/// `[SCALE^2 - 8 SCALE, SCALE^2 + 3 SCALE]` — comfortably inside one part in
/// a million of the unit sphere.
pub proof fn lemma_qnormalize_norm(q: Quaternion)
    ensures
        spec_qnormalize(q).spec_norm_sq() >= (SCALE as int) * (SCALE as int) - 8 * (SCALE as int),
        spec_qnormalize(q).spec_norm_sq() <= (SCALE as int) * (SCALE as int) + 3 * (SCALE as int),
{
    let n1 = q.spec_norm_sq();
    lemma_square_bound(q.w as int, 0x8000_0000_0000_0000int);
    lemma_square_bound(q.x as int, 0x8000_0000_0000_0000int);
    lemma_square_bound(q.y as int, 0x8000_0000_0000_0000int);
    lemma_square_bound(q.z as int, 0x8000_0000_0000_0000int);
    lemma_isqrt_exists(n1);
    let m1 = spec_isqrt(n1);
    let once = spec_qnorm_pass(q);
    if m1 <= NORM_EPS as int {
        assert(once == Quaternion::spec_identity());
        lemma_identity_norm_pass();
    } else {
        lemma_pass_norm_bounds(q, NORM_EPS as int + 1);
        let n2 = once.spec_norm_sq();
        lemma_isqrt_exists(n2);
        let m2 = spec_isqrt(n2);
        assert(m2 >= SCALE as int - 5) by (nonlinear_arith)
            requires
                is_sqrt(n2, m2),
                n2 >= (SCALE as int) * (SCALE as int) - 8 * (SCALE as int),
                SCALE == 1_000_000_000i64,
        ;
        lemma_pass_norm_bounds(once, SCALE as int - 5);
    }
}

/// Dot-product threshold above which two orientations count as nearly
/// identical and interpolation falls back to the linear blend (0.9995).
pub const DOT_NEAR: i64 = 999_500_000;

/// Saturated fixed-point dot product of two quaternions.
pub open spec fn spec_qdot(q1: Quaternion, q2: Quaternion) -> int {
    spec_sat_add(
        spec_sat_add(
            spec_sat_add(
                spec_mul_div(q1.w as int, q2.w as int, SCALE as int),
                spec_mul_div(q1.x as int, q2.x as int, SCALE as int),
            ),
            spec_mul_div(q1.y as int, q2.y as int, SCALE as int),
        ),
        spec_mul_div(q1.z as int, q2.z as int, SCALE as int),
    )
}

fn qdot(q1: &Quaternion, q2: &Quaternion) -> (r: i64)
    ensures
        r == spec_qdot(*q1, *q2),
        -(SAT as int) <= r <= SAT as int,
{
    sat_add(
        sat_add(
            sat_add(fx_mul_div(q1.w, q2.w, SCALE), fx_mul_div(q1.x, q2.x, SCALE)),
            fx_mul_div(q1.y, q2.y, SCALE),
        ),
        fx_mul_div(q1.z, q2.z, SCALE),
    )
}

/// Component-wise negation (saturated, so `i64::MIN` cannot overflow).
pub open spec fn spec_qneg(q: Quaternion) -> Quaternion {
    Quaternion {
        w: spec_clamp(-(q.w as int), -(SAT as int), SAT as int) as i64,
        x: spec_clamp(-(q.x as int), -(SAT as int), SAT as int) as i64,
        y: spec_clamp(-(q.y as int), -(SAT as int), SAT as int) as i64,
        z: spec_clamp(-(q.z as int), -(SAT as int), SAT as int) as i64,
    }
}

fn qneg(q: &Quaternion) -> (r: Quaternion)
    ensures
        r == spec_qneg(*q),
{
    Quaternion {
        w: sat_sub(0, q.w),
        x: sat_sub(0, q.x),
        y: sat_sub(0, q.y),
        z: sat_sub(0, q.z),
    }
}

/// Linear interpolation from `q1` toward `q2` by fraction `t` (scaled by
/// `SCALE`), before renormalization.
pub open spec fn spec_nlerp(q1: Quaternion, q2: Quaternion, t: int) -> Quaternion {
    Quaternion {
        w: spec_sat_add(
            q1.w as int,
            spec_mul_div(t, spec_clamp(q2.w - q1.w, -(SAT as int), SAT as int), SCALE as int),
        ) as i64,
        x: spec_sat_add(
            q1.x as int,
            spec_mul_div(t, spec_clamp(q2.x - q1.x, -(SAT as int), SAT as int), SCALE as int),
        ) as i64,
        y: spec_sat_add(
            q1.y as int,
            spec_mul_div(t, spec_clamp(q2.y - q1.y, -(SAT as int), SAT as int), SCALE as int),
        ) as i64,
        z: spec_sat_add(
            q1.z as int,
            spec_mul_div(t, spec_clamp(q2.z - q1.z, -(SAT as int), SAT as int), SCALE as int),
        ) as i64,
    }
}

fn nlerp(q1: &Quaternion, q2: &Quaternion, t: i64) -> (r: Quaternion)
    ensures
        r == spec_nlerp(*q1, *q2, t as int),
        -(SAT as int) <= r.w <= SAT as int,
        -(SAT as int) <= r.x <= SAT as int,
        -(SAT as int) <= r.y <= SAT as int,
        -(SAT as int) <= r.z <= SAT as int,
{
    Quaternion {
        w: sat_add(q1.w, fx_mul_div(t, sat_sub(q2.w, q1.w), SCALE)),
        x: sat_add(q1.x, fx_mul_div(t, sat_sub(q2.x, q1.x), SCALE)),
        y: sat_add(q1.y, fx_mul_div(t, sat_sub(q2.y, q1.y), SCALE)),
        z: sat_add(q1.z, fx_mul_div(t, sat_sub(q2.z, q1.z), SCALE)),
    }
}

/// The spherical-weight combination `(w1 q1 + w2 q2) / SCALE`.
pub open spec fn spec_qmix(q1: Quaternion, q2: Quaternion, w1: int, w2: int) -> Quaternion {
    Quaternion {
        w: spec_sat_add(
            spec_mul_div(w1, q1.w as int, SCALE as int),
            spec_mul_div(w2, q2.w as int, SCALE as int),
        ) as i64,
        x: spec_sat_add(
            spec_mul_div(w1, q1.x as int, SCALE as int),
            spec_mul_div(w2, q2.x as int, SCALE as int),
        ) as i64,
        y: spec_sat_add(
            spec_mul_div(w1, q1.y as int, SCALE as int),
            spec_mul_div(w2, q2.y as int, SCALE as int),
        ) as i64,
        z: spec_sat_add(
            spec_mul_div(w1, q1.z as int, SCALE as int),
            spec_mul_div(w2, q2.z as int, SCALE as int),
        ) as i64,
    }
}

fn qmix(q1: &Quaternion, q2: &Quaternion, w1: i64, w2: i64) -> (r: Quaternion)
    ensures
        r == spec_qmix(*q1, *q2, w1 as int, w2 as int),
        -(SAT as int) <= r.w <= SAT as int,
        -(SAT as int) <= r.x <= SAT as int,
        -(SAT as int) <= r.y <= SAT as int,
        -(SAT as int) <= r.z <= SAT as int,
{
    Quaternion {
        w: sat_add(fx_mul_div(w1, q1.w, SCALE), fx_mul_div(w2, q2.w, SCALE)),
        x: sat_add(fx_mul_div(w1, q1.x, SCALE), fx_mul_div(w2, q2.x, SCALE)),
        y: sat_add(fx_mul_div(w1, q1.y, SCALE), fx_mul_div(w2, q2.y, SCALE)),
        z: sat_add(fx_mul_div(w1, q1.z, SCALE), fx_mul_div(w2, q2.z, SCALE)),
    }
}

/// Spherical linear interpolation from `q1` toward `q2` by fraction `t`,
/// taking the shorter rotational path and falling back to the renormalized
/// linear blend when the two are nearly identical (or the sine of the angle
/// between them degenerates); the result is always renormalized.
pub open spec fn spec_slerp(q1: Quaternion, q2: Quaternion, t: int) -> Quaternion {
    let dot0 = spec_qdot(q1, q2);
    let q2a = if dot0 < 0 {
        spec_qneg(q2)
    } else {
        q2
    };
    let dot = if dot0 < 0 {
        -dot0
    } else {
        dot0
    };
    if dot > DOT_NEAR {
        spec_qnormalize(spec_nlerp(q1, q2a, t))
    } else {
        let theta = crate::trig::spec_acos(dot);
        let st = crate::trig::spec_sin(theta);
        if st <= 0 {
            spec_qnormalize(spec_nlerp(q1, q2a, t))
        } else {
            let w1 = spec_mul_div(
                crate::trig::spec_sin(spec_mul_div((SCALE as int) - t, theta, SCALE as int)),
                SCALE as int,
                st,
            );
            let w2 = spec_mul_div(
                crate::trig::spec_sin(spec_mul_div(t, theta, SCALE as int)),
                SCALE as int,
                st,
            );
            spec_qnormalize(spec_qmix(q1, q2a, w1, w2))
        }
    }
}

/// Normalizing the identity gives back the identity, with its exact norm.
proof fn lemma_identity_norm_pass()
    ensures
        spec_qnorm_pass(Quaternion::spec_identity()) == Quaternion::spec_identity(),
        Quaternion::spec_identity().spec_norm_sq() == (SCALE as int) * (SCALE as int),
{
    let q = Quaternion::spec_identity();
    assert(q.spec_norm_sq() == (SCALE as int) * (SCALE as int)) by (nonlinear_arith)
        requires
            q.w == SCALE,
            q.x == 0,
            q.y == 0,
            q.z == 0,
            q.spec_norm_sq() == (q.w as int) * (q.w as int) + (q.x as int) * (q.x as int) + (
            q.y as int) * (q.y as int) + (q.z as int) * (q.z as int),
    ;
    let n = q.spec_norm_sq();
    lemma_isqrt_exists(n);
    assert(is_sqrt(n, SCALE as int)) by (nonlinear_arith)
        requires
            n == (SCALE as int) * (SCALE as int),
            SCALE == 1_000_000_000i64,
    ;
    lemma_isqrt_unique(n, SCALE as int, spec_isqrt(n));
    lemma_div_by_multiple(SCALE as int, SCALE as int);
    assert((SCALE as int) * (SCALE as int) / (SCALE as int) == SCALE as int);
    lemma_div_of0(SCALE as int);
    assert(0int * (SCALE as int) == 0) by (nonlinear_arith);
    assert(spec_qnorm_pass(q).w == SCALE as int);
    assert(spec_qnorm_pass(q).x == 0);
}


/// Complementary filter fusing inertial and positioning samples into one
/// orientation/position/velocity estimate.
pub struct ComplementaryFilter {
    /// Filter coefficient in `[0, SCALE]`: higher trusts the gyroscope
    /// more, lower trusts the accelerometer more.
    pub alpha: i64,
    /// Current orientation estimate.
    pub orientation: Quaternion,
    /// Current position estimate.
    pub position: crate::models::GeoPos,
    /// Current velocity estimate.
    pub velocity: crate::models::Vec3,
    /// Timestamp of the last update (milliseconds), absent before the first.
    pub last_update: Option<i64>,
    /// Accumulated gyroscope drift compensation.
    pub gyro_drift_compensation: crate::models::Vec3,
    /// Whether the position has been seeded from a positioning fix.
    pub initialized: bool,
}

impl ComplementaryFilter {
    /// Well-formedness: the coefficient is a valid fraction and the stored
    /// orientation stays within one unit per component.
    pub open spec fn wf(self) -> bool {
        &&& 0 <= self.alpha <= SCALE as int
        &&& -(SCALE as int) <= self.orientation.w <= SCALE as int
        &&& -(SCALE as int) <= self.orientation.x <= SCALE as int
        &&& -(SCALE as int) <= self.orientation.y <= SCALE as int
        &&& -(SCALE as int) <= self.orientation.z <= SCALE as int
    }

    /// Create a new filter; the coefficient is clamped into `[0, SCALE]`.
    pub fn new(alpha: i64) -> (f: ComplementaryFilter)
        ensures
            f.wf(),
            f.alpha == spec_clamp(alpha as int, 0, SCALE as int),
            f.orientation == Quaternion::spec_identity(),
            f.position == (crate::models::GeoPos { lat: 0, lon: 0, alt: 0 }),
            f.velocity == crate::models::Vec3::spec_zero(),
            f.last_update is None,
            f.gyro_drift_compensation == crate::models::Vec3::spec_zero(),
            !f.initialized,
    {
        ComplementaryFilter {
            alpha: clamp(alpha, 0, SCALE),
            orientation: Quaternion::identity(),
            position: crate::models::GeoPos { lat: 0, lon: 0, alt: 0 },
            velocity: crate::models::Vec3::zero(),
            last_update: None,
            gyro_drift_compensation: crate::models::Vec3::zero(),
            initialized: false,
        }
    }

    /// Current filter coefficient.
    pub fn alpha(&self) -> (r: i64)
        ensures
            r == self.alpha,
    {
        self.alpha
    }

    /// Retune the filter coefficient at runtime (clamped into
    /// `[0, SCALE]`); no other state changes.
    pub fn set_alpha(&mut self, alpha: i64)
        ensures
            final(self).alpha == spec_clamp(alpha as int, 0, SCALE as int),
            *final(self) == (ComplementaryFilter { alpha: final(self).alpha, ..*old(self) }),
    {
        self.alpha = clamp(alpha, 0, SCALE);
    }

    /// Normalize a quaternion to unit length; a collapsed norm (below one
    /// millionth) falls back to the identity.  The squared norm of the
    /// result provably stays within one part in a million of one.
    pub fn normalize_quaternion(&self, q: Quaternion) -> (r: Quaternion)
        requires
            -(SAT as int) <= q.w <= SAT as int,
            -(SAT as int) <= q.x <= SAT as int,
            -(SAT as int) <= q.y <= SAT as int,
            -(SAT as int) <= q.z <= SAT as int,
        ensures
            r == spec_qnormalize(q),
            -(SCALE as int) <= r.w <= SCALE as int,
            -(SCALE as int) <= r.x <= SCALE as int,
            -(SCALE as int) <= r.y <= SCALE as int,
            -(SCALE as int) <= r.z <= SCALE as int,
            (SCALE as int) * (SCALE as int) - 8 * (SCALE as int) <= r.spec_norm_sq() <= (
            SCALE as int) * (SCALE as int) + 3 * (SCALE as int),
    {
        proof {
            lemma_qnormalize_norm(q);
        }
        let once = qnorm_pass(q);
        qnorm_pass(once)
    }

    /// Spherical linear interpolation from `q1` toward `q2` by fraction
    /// `t / SCALE`, shorter-path corrected, renormalized.
    pub fn slerp(&self, q1: Quaternion, q2: Quaternion, t: i64) -> (r: Quaternion)
        requires
            0 <= t <= SCALE as int,
        ensures
            r == spec_slerp(q1, q2, t as int),
            -(SCALE as int) <= r.w <= SCALE as int,
            -(SCALE as int) <= r.x <= SCALE as int,
            -(SCALE as int) <= r.y <= SCALE as int,
            -(SCALE as int) <= r.z <= SCALE as int,
            (SCALE as int) * (SCALE as int) - 8 * (SCALE as int) <= r.spec_norm_sq() <= (
            SCALE as int) * (SCALE as int) + 3 * (SCALE as int),
    {
        let dot0 = qdot(&q1, &q2);
        let (q2a, dot) = if dot0 < 0 {
            (qneg(&q2), -dot0)
        } else {
            (q2, dot0)
        };
        if dot > DOT_NEAR {
            let lin = nlerp(&q1, &q2a, t);
            return self.normalize_quaternion(lin);
        }
        let theta = crate::trig::acos_fp(dot);
        let st = crate::trig::sin_fp(theta);
        if st <= 0 {
            let lin = nlerp(&q1, &q2a, t);
            return self.normalize_quaternion(lin);
        }
        let w1 = fx_mul_div(crate::trig::sin_fp(fx_mul_div(SCALE - t, theta, SCALE)), SCALE, st);
        let w2 = fx_mul_div(crate::trig::sin_fp(fx_mul_div(t, theta, SCALE)), SCALE, st);
        let mixed = qmix(&q1, &q2a, w1, w2);
        self.normalize_quaternion(mixed)
    }

    /// Complementary fusion: interpolate from the accelerometer-derived
    /// orientation toward the gyroscope-integrated one by the filter
    /// coefficient.
    pub fn fuse_orientations(&self, gyro_q: Quaternion, accel_q: Quaternion) -> (r: Quaternion)
        requires
            0 <= self.alpha <= SCALE as int,
        ensures
            r == spec_slerp(accel_q, gyro_q, self.alpha as int),
            -(SCALE as int) <= r.w <= SCALE as int,
            -(SCALE as int) <= r.x <= SCALE as int,
            -(SCALE as int) <= r.y <= SCALE as int,
            -(SCALE as int) <= r.z <= SCALE as int,
            (SCALE as int) * (SCALE as int) - 8 * (SCALE as int) <= r.spec_norm_sq() <= (
            SCALE as int) * (SCALE as int) + 3 * (SCALE as int),
    {
        self.slerp(accel_q, gyro_q, self.alpha)
    }
}

/// Degrees-to-radians factor (pi / 180, scaled).
pub const DEG_TO_RAD: i64 = 17_453_293;

/// Radians-to-degrees factor (180 / pi, scaled).
pub const RAD_TO_DEG: i64 = 57_295_779_513;

/// Default time step on the very first update: 20 ms in nanoseconds.
pub const DT_DEFAULT: i64 = 20_000_000;

/// The elapsed time step in nanoseconds: the difference of the millisecond
/// timestamps (saturated, floored at zero), or the 20 ms default before the
/// first update.
pub open spec fn spec_dt(last: Option<i64>, now: int) -> int {
    match last {
        Option::None => DT_DEFAULT as int,
        Option::Some(l) => {
            let n = spec_mul_div(spec_clamp(now - l, -(SAT as int), SAT as int), 1_000_000, 1);
            if n < 0 {
                0
            } else {
                n
            }
        },
    }
}

/// Triple fixed-point product `a * b * c / SCALE^2`.
pub open spec fn spec_m3(a: int, b: int, c: int) -> int {
    spec_mul_div(spec_mul_div(a, b, SCALE as int), c, SCALE as int)
}

fn m3(a: i64, b: i64, c: i64) -> (r: i64)
    ensures
        r == spec_m3(a as int, b as int, c as int),
{
    fx_mul_div(fx_mul_div(a, b, SCALE), c, SCALE)
}

/// Quaternion assembled from Euler angles (aerospace convention).
pub open spec fn spec_euler_quat(roll: int, pitch: int, yaw: int) -> Quaternion {
    let cr = crate::trig::spec_cos(div_tz(roll, 2));
    let sr = crate::trig::spec_sin(div_tz(roll, 2));
    let cp = crate::trig::spec_cos(div_tz(pitch, 2));
    let sp = crate::trig::spec_sin(div_tz(pitch, 2));
    let cy = crate::trig::spec_cos(div_tz(yaw, 2));
    let sy = crate::trig::spec_sin(div_tz(yaw, 2));
    Quaternion {
        w: spec_sat_add(spec_m3(cr, cp, cy), spec_m3(sr, sp, sy)) as i64,
        x: spec_clamp(spec_m3(sr, cp, cy) - spec_m3(cr, sp, sy), -(SAT as int), SAT as int) as i64,
        y: spec_sat_add(spec_m3(cr, sp, cy), spec_m3(sr, cp, sy)) as i64,
        z: spec_clamp(spec_m3(cr, cp, sy) - spec_m3(sr, sp, cy), -(SAT as int), SAT as int) as i64,
    }
}

/// Gyroscope integration: drift-compensate the angular rate, form the
/// quaternion derivative over half the time step, apply it by quaternion
/// multiplication, renormalize.
pub open spec fn spec_integrate(q: Quaternion, drift: Vec3, gyro: Vec3, dt: int) -> Quaternion {
    let cx = spec_clamp(gyro.x - drift.x, -(SAT as int), SAT as int);
    let cy = spec_clamp(gyro.y - drift.y, -(SAT as int), SAT as int);
    let cz = spec_clamp(gyro.z - drift.z, -(SAT as int), SAT as int);
    let hdt = div_tz(dt, 2);
    let dqx = spec_mul_div(cx, hdt, SCALE as int);
    let dqy = spec_mul_div(cy, hdt, SCALE as int);
    let dqz = spec_mul_div(cz, hdt, SCALE as int);
    let nw = spec_clamp(
        spec_clamp(
            spec_clamp(
                q.w - spec_mul_div(dqx, q.x as int, SCALE as int),
                -(SAT as int),
                SAT as int,
            ) - spec_mul_div(dqy, q.y as int, SCALE as int),
            -(SAT as int),
            SAT as int,
        ) - spec_mul_div(dqz, q.z as int, SCALE as int),
        -(SAT as int),
        SAT as int,
    );
    let nx = spec_clamp(
        spec_sat_add(
            spec_sat_add(q.x as int, spec_mul_div(dqx, q.w as int, SCALE as int)),
            spec_mul_div(dqz, q.y as int, SCALE as int),
        ) - spec_mul_div(dqy, q.z as int, SCALE as int),
        -(SAT as int),
        SAT as int,
    );
    let ny = spec_sat_add(
        spec_clamp(
            spec_sat_add(q.y as int, spec_mul_div(dqy, q.w as int, SCALE as int))
                - spec_mul_div(dqz, q.x as int, SCALE as int),
            -(SAT as int),
            SAT as int,
        ),
        spec_mul_div(dqx, q.z as int, SCALE as int),
    );
    let nz = spec_clamp(
        spec_sat_add(
            spec_sat_add(q.z as int, spec_mul_div(dqz, q.w as int, SCALE as int)),
            spec_mul_div(dqy, q.x as int, SCALE as int),
        ) - spec_mul_div(dqx, q.y as int, SCALE as int),
        -(SAT as int),
        SAT as int,
    );
    spec_qnormalize(Quaternion { w: nw as i64, x: nx as i64, y: ny as i64, z: nz as i64 })
}

/// Tilt-only orientation read off the (assumed gravity-dominated)
/// accelerometer, keeping the yaw of the current orientation.
pub open spec fn spec_accel_orientation(q: Quaternion, accel: Vec3) -> Quaternion {
    let na = accel.spec_normalize();
    let roll = crate::trig::spec_atan2(na.y as int, na.z as int);
    let pm = (Vec3 { x: 0i64, y: na.y, z: na.z }).spec_magnitude();
    let pitch = crate::trig::spec_atan2(-(na.x as int), pm);
    spec_euler_quat(roll, pitch, q.spec_yaw())
}

/// One low-pass position step toward the reported fix, with the blend
/// weight picked by positioning quality.
pub open spec fn spec_position_step(p: GeoPos, gps: GpsData) -> GeoPos {
    let w: int = if gps.hdop < 3_000_000_000i64 {
        300_000_000
    } else {
        100_000_000
    };
    GeoPos {
        lat: spec_blend(p.lat as int, gps.latitude as int, w) as i64,
        lon: spec_blend(p.lon as int, gps.longitude as int, w) as i64,
        alt: spec_blend(p.alt as int, gps.altitude as int, w) as i64,
    }
}

/// Velocity fusion: positioning speed and heading give the horizontal
/// components, inertial acceleration integrated over the step contributes
/// with fixed weights (0.9/0.1 horizontally, 0.5 vertically).
pub open spec fn spec_velocity_step(imu: ImuData, gps: GpsData, dt: int) -> Vec3 {
    let h = spec_mul_div(gps.heading as int, DEG_TO_RAD as int, SCALE as int);
    let gvx = spec_mul_div(gps.speed as int, crate::trig::spec_cos(h), SCALE as int);
    let gvy = spec_mul_div(gps.speed as int, crate::trig::spec_sin(h), SCALE as int);
    let ax = spec_mul_div(imu.acceleration.x as int, dt, SCALE as int);
    let ay = spec_mul_div(imu.acceleration.y as int, dt, SCALE as int);
    let az = spec_mul_div(imu.acceleration.z as int, dt, SCALE as int);
    Vec3 {
        x: spec_sat_add(
            spec_mul_div(gvx, 900_000_000, SCALE as int),
            spec_mul_div(ax, 100_000_000, SCALE as int),
        ) as i64,
        y: spec_sat_add(
            spec_mul_div(gvy, 900_000_000, SCALE as int),
            spec_mul_div(ay, 100_000_000, SCALE as int),
        ) as i64,
        z: spec_mul_div(az, 500_000_000, SCALE as int) as i64,
    }
}

/// The positioning-derived confidence tier for a dilution-of-precision
/// value: full trust below 2, 0.7 below 5, 0.3 otherwise.
pub open spec fn spec_gps_confidence(hdop: int) -> int {
    if hdop < 2_000_000_000 {
        SCALE as int
    } else if hdop < 5_000_000_000 {
        700_000_000
    } else {
        300_000_000
    }
}

/// Fusion confidence: 0.6 of the inertial confidence (one minus the clamped
/// noise level) plus 0.4 of the positioning tier.
pub open spec fn spec_confidence(imu: ImuData, gps: GpsData) -> int {
    let ic = (SCALE as int) - spec_clamp(imu.noise_level as int, 0, SCALE as int);
    let gc = spec_gps_confidence(gps.hdop as int);
    spec_sat_add(
        spec_mul_div(ic, 600_000_000, SCALE as int),
        spec_mul_div(gc, 400_000_000, SCALE as int),
    )
}

/// System health: the average of the two (clamped) sensor health fields.
pub open spec fn spec_system_health(imu: ImuData, gps: GpsData) -> int {
    div_tz(
        spec_clamp(imu.health as int, 0, SCALE as int) + spec_clamp(
            gps.health as int,
            0,
            SCALE as int,
        ),
        2,
    )
}

impl ComplementaryFilter {
    /// Integrate the gyroscope reading over the elapsed step, compensating
    /// the accumulated drift estimate; the result is renormalized.
    pub fn integrate_gyroscope(&self, gyro: &Vec3, dt: i64) -> (r: Quaternion)
        requires
            0 <= dt,
        ensures
            r == spec_integrate(self.orientation, self.gyro_drift_compensation, *gyro, dt as int),
            -(SCALE as int) <= r.w <= SCALE as int,
            -(SCALE as int) <= r.x <= SCALE as int,
            -(SCALE as int) <= r.y <= SCALE as int,
            -(SCALE as int) <= r.z <= SCALE as int,
    {
        let cx = sat_sub(gyro.x, self.gyro_drift_compensation.x);
        let cy = sat_sub(gyro.y, self.gyro_drift_compensation.y);
        let cz = sat_sub(gyro.z, self.gyro_drift_compensation.z);
        let hdt = crate::trig::fx_div(dt, 2);
        let dqx = fx_mul_div(cx, hdt, SCALE);
        let dqy = fx_mul_div(cy, hdt, SCALE);
        let dqz = fx_mul_div(cz, hdt, SCALE);
        let q = self.orientation;
        let nw = sat_sub(
            sat_sub(sat_sub(q.w, fx_mul_div(dqx, q.x, SCALE)), fx_mul_div(dqy, q.y, SCALE)),
            fx_mul_div(dqz, q.z, SCALE),
        );
        let nx = sat_sub(
            sat_add(sat_add(q.x, fx_mul_div(dqx, q.w, SCALE)), fx_mul_div(dqz, q.y, SCALE)),
            fx_mul_div(dqy, q.z, SCALE),
        );
        let ny = sat_add(
            sat_sub(sat_add(q.y, fx_mul_div(dqy, q.w, SCALE)), fx_mul_div(dqz, q.x, SCALE)),
            fx_mul_div(dqx, q.z, SCALE),
        );
        let nz = sat_sub(
            sat_add(sat_add(q.z, fx_mul_div(dqz, q.w, SCALE)), fx_mul_div(dqy, q.x, SCALE)),
            fx_mul_div(dqx, q.y, SCALE),
        );
        self.normalize_quaternion(Quaternion { w: nw, x: nx, y: ny, z: nz })
    }

    /// Convert Euler angles to a quaternion.
    pub fn euler_to_quaternion(&self, roll: i64, pitch: i64, yaw: i64) -> (r: Quaternion)
        ensures
            r == spec_euler_quat(roll as int, pitch as int, yaw as int),
    {
        let cr = crate::trig::cos_fp(crate::trig::fx_div(roll, 2));
        let sr = crate::trig::sin_fp(crate::trig::fx_div(roll, 2));
        let cp = crate::trig::cos_fp(crate::trig::fx_div(pitch, 2));
        let sp = crate::trig::sin_fp(crate::trig::fx_div(pitch, 2));
        let cy = crate::trig::cos_fp(crate::trig::fx_div(yaw, 2));
        let sy = crate::trig::sin_fp(crate::trig::fx_div(yaw, 2));
        Quaternion {
            w: sat_add(m3(cr, cp, cy), m3(sr, sp, sy)),
            x: sat_sub(m3(sr, cp, cy), m3(cr, sp, sy)),
            y: sat_add(m3(cr, sp, cy), m3(sr, cp, sy)),
            z: sat_sub(m3(cr, cp, sy), m3(sr, sp, cy)),
        }
    }

    /// Tilt-only orientation from the accelerometer (gravity reference);
    /// yaw is not observable here and is carried over from the current
    /// state.
    pub fn orientation_from_accelerometer(&self, accel: &Vec3) -> (r: Quaternion)
        ensures
            r == spec_accel_orientation(self.orientation, *accel),
    {
        let na = accel.normalize();
        let roll = crate::trig::atan2_fp(na.y, na.z);
        let pv = Vec3 { x: 0, y: na.y, z: na.z };
        let pm = pv.magnitude();
        let pitch = crate::trig::atan2_fp(-na.x, pm);
        let e = self.orientation.to_euler();
        self.euler_to_quaternion(roll, pitch, e.2)
    }

    /// One low-pass position step toward the reported fix; only the
    /// position field changes.
    pub fn update_position(&mut self, gps: &GpsData)
        ensures
            final(self).position == spec_position_step(old(self).position, *gps),
            *final(self) == (ComplementaryFilter { position: final(self).position, ..*old(self) }),
    {
        let w: i64 = if gps.hdop < 3_000_000_000 {
            300_000_000
        } else {
            100_000_000
        };
        self.position = GeoPos {
            lat: crate::fixed::blend(self.position.lat, gps.latitude, w),
            lon: crate::fixed::blend(self.position.lon, gps.longitude, w),
            alt: crate::fixed::blend(self.position.alt, gps.altitude, w),
        };
    }

    /// Velocity fusion step; only the velocity field changes.
    pub fn update_velocity(&mut self, imu: &ImuData, gps: &GpsData, dt: i64)
        ensures
            final(self).velocity == spec_velocity_step(*imu, *gps, dt as int),
            *final(self) == (ComplementaryFilter { velocity: final(self).velocity, ..*old(self) }),
    {
        let h = fx_mul_div(gps.heading, DEG_TO_RAD, SCALE);
        let gvx = fx_mul_div(gps.speed, crate::trig::cos_fp(h), SCALE);
        let gvy = fx_mul_div(gps.speed, crate::trig::sin_fp(h), SCALE);
        let ax = fx_mul_div(imu.acceleration.x, dt, SCALE);
        let ay = fx_mul_div(imu.acceleration.y, dt, SCALE);
        let az = fx_mul_div(imu.acceleration.z, dt, SCALE);
        self.velocity = Vec3 {
            x: sat_add(fx_mul_div(gvx, 900_000_000, SCALE), fx_mul_div(ax, 100_000_000, SCALE)),
            y: sat_add(fx_mul_div(gvy, 900_000_000, SCALE), fx_mul_div(ay, 100_000_000, SCALE)),
            z: fx_mul_div(az, 500_000_000, SCALE),
        };
    }

    /// The positioning-derived confidence tier for a dilution-of-precision
    /// value.
    pub fn gps_confidence(hdop: i64) -> (r: i64)
        ensures
            r == spec_gps_confidence(hdop as int),
            hdop < 2_000_000_000 ==> r == SCALE,
            2_000_000_000 <= hdop < 5_000_000_000 ==> r == 700_000_000,
            hdop >= 5_000_000_000 ==> r == 300_000_000,
    {
        if hdop < 2_000_000_000 {
            SCALE
        } else if hdop < 5_000_000_000 {
            700_000_000
        } else {
            300_000_000
        }
    }

    /// Fusion confidence, always in `[0, SCALE]` whatever the inputs.
    pub fn calculate_confidence(&self, imu: &ImuData, gps: &GpsData) -> (r: i64)
        ensures
            r == spec_confidence(*imu, *gps),
            0 <= r <= SCALE as int,
    {
        let ic = SCALE - clamp(imu.noise_level, 0, SCALE);
        let gc = Self::gps_confidence(gps.hdop);
        proof {
            crate::trig::lemma_mul_div_le(
                ic as int,
                600_000_000,
                SCALE as int,
                SCALE as int,
                600_000_000,
                600_000_000,
            );
            crate::trig::lemma_mul_div_nonneg(ic as int, 600_000_000, SCALE as int);
            crate::trig::lemma_mul_div_le(
                gc as int,
                400_000_000,
                SCALE as int,
                SCALE as int,
                400_000_000,
                400_000_000,
            );
            crate::trig::lemma_mul_div_nonneg(gc as int, 400_000_000, SCALE as int);
        }
        sat_add(fx_mul_div(ic, 600_000_000, SCALE), fx_mul_div(gc, 400_000_000, SCALE))
    }

    /// Overall system health: the average of the two sensors' (clamped)
    /// health figures, always in `[0, SCALE]`.
    pub fn calculate_system_health(&self, imu: &ImuData, gps: &GpsData) -> (r: i64)
        ensures
            r == spec_system_health(*imu, *gps),
            0 <= r <= SCALE as int,
    {
        let s = clamp(imu.health, 0, SCALE) + clamp(gps.health, 0, SCALE);
        let r = ((s as u64) / 2) as i64;
        proof {
            assert(r == div_tz(s as int, 2));
        }
        r
    }
}

/// Everything one fusion step promises, as a relation between the filter
/// state before, the state after, the two samples, and the assembled
/// estimate: every field is a function of those inputs.
pub open spec fn spec_update_rel(
    pre: ComplementaryFilter,
    post: ComplementaryFilter,
    imu: ImuData,
    gps: GpsData,
    out: FusedSensorData,
) -> bool {
    let dt = spec_dt(pre.last_update, imu.timestamp as int);
    &&& post.alpha == pre.alpha
    &&& post.gyro_drift_compensation == pre.gyro_drift_compensation
    &&& post.initialized
    &&& post.last_update == Some(imu.timestamp)
    &&& post.orientation == spec_slerp(
        spec_accel_orientation(pre.orientation, imu.acceleration),
        spec_integrate(pre.orientation, pre.gyro_drift_compensation, imu.gyroscope, dt),
        pre.alpha as int,
    )
    &&& post.position == spec_position_step(
        if pre.initialized {
            pre.position
        } else {
            GeoPos { lat: gps.latitude, lon: gps.longitude, alt: gps.altitude }
        },
        gps,
    )
    &&& post.velocity == spec_velocity_step(imu, gps, dt)
    &&& out.timestamp == imu.timestamp
    &&& out.orientation == post.orientation
    &&& out.position == post.position
    &&& out.velocity == post.velocity
    &&& out.raw_acceleration == imu.acceleration
    &&& out.raw_gyroscope == imu.gyroscope
    &&& out.gps_speed == gps.speed
    &&& out.gps_heading == gps.heading
    &&& out.confidence == spec_confidence(imu, gps)
    &&& out.system_health == spec_system_health(imu, gps)
    &&& out.anomaly_score is None
    &&& out.euler_degrees.roll == spec_mul_div(
        post.orientation.spec_roll(),
        RAD_TO_DEG as int,
        SCALE as int,
    )
    &&& out.euler_degrees.pitch == spec_mul_div(
        post.orientation.spec_pitch(),
        RAD_TO_DEG as int,
        SCALE as int,
    )
    &&& out.euler_degrees.yaw == spec_mul_div(
        post.orientation.spec_yaw(),
        RAD_TO_DEG as int,
        SCALE as int,
    )
}

impl ComplementaryFilter {
    /// One full fusion step: integrate the gyroscope, correct it with the
    /// accelerometer-derived tilt, low-pass the position toward the fix
    /// (seeding it from the fix on the very first call), fuse velocities,
    /// and assemble the published estimate.
    ///
    /// The returned orientation provably has unit norm within one part in a
    /// million, and confidence and system health always lie in
    /// `[0, SCALE]`, however extreme the sensor inputs.
    pub fn update(&mut self, imu: ImuData, gps: GpsData) -> (out: FusedSensorData)
        requires
            old(self).wf(),
        ensures
            final(self).wf(),
            spec_update_rel(*old(self), *final(self), imu, gps, out),
            ((SCALE as int) - (NORM_EPS as int)) * ((SCALE as int) - (NORM_EPS as int))
                <= final(self).orientation.spec_norm_sq(),
            final(self).orientation.spec_norm_sq() <= ((SCALE as int) + (NORM_EPS as int)) * ((
            SCALE as int) + (NORM_EPS as int)),
            0 <= out.confidence <= SCALE as int,
            0 <= out.system_health <= SCALE as int,
    {
        let dt: i64 = match self.last_update {
            Option::None => DT_DEFAULT,
            Option::Some(l) => {
                let d = sat_sub(imu.timestamp, l);
                let n = fx_mul_div(d, 1_000_000, 1);
                if n < 0 {
                    0
                } else {
                    n
                }
            },
        };
        self.last_update = Some(imu.timestamp);
        if !self.initialized {
            self.position = GeoPos { lat: gps.latitude, lon: gps.longitude, alt: gps.altitude };
            self.initialized = true;
        }
        let gyro_q = self.integrate_gyroscope(&imu.gyroscope, dt);
        let accel_q = self.orientation_from_accelerometer(&imu.acceleration);
        self.orientation = self.fuse_orientations(gyro_q, accel_q);
        self.update_position(&gps);
        self.update_velocity(&imu, &gps, dt);
        let confidence = self.calculate_confidence(&imu, &gps);
        let system_health = self.calculate_system_health(&imu, &gps);
        let e = self.orientation.to_euler();
        let euler_degrees = EulerAngles {
            roll: fx_mul_div(e.0, RAD_TO_DEG, SCALE),
            pitch: fx_mul_div(e.1, RAD_TO_DEG, SCALE),
            yaw: fx_mul_div(e.2, RAD_TO_DEG, SCALE),
        };
        FusedSensorData {
            timestamp: imu.timestamp,
            orientation: self.orientation,
            euler_degrees,
            position: self.position,
            velocity: self.velocity,
            raw_acceleration: imu.acceleration,
            raw_gyroscope: imu.gyroscope,
            gps_speed: gps.speed,
            gps_heading: gps.heading,
            confidence,
            system_health,
            anomaly_score: None,
        }
    }
}

/// Law: when two orientations are nearly identical (absolute dot product
/// above the 0.9995 threshold), spherical interpolation takes the linear
/// fallback — no division by a near-zero sine happens — and the result is
/// exactly the renormalized linear blend.
pub proof fn lemma_slerp_near_identical(q1: Quaternion, q2: Quaternion, t: int)
    requires
        ({
            let d0 = spec_qdot(q1, q2);
            (if d0 < 0 {
                -d0
            } else {
                d0
            }) > DOT_NEAR as int
        }),
    ensures
        spec_slerp(q1, q2, t) == spec_qnormalize(
            spec_nlerp(
                q1,
                if spec_qdot(q1, q2) < 0 {
                    spec_qneg(q2)
                } else {
                    q2
                },
                t,
            ),
        ),
{
}

/// Law: interpolating by fraction zero returns the first quaternion
/// (renormalized), and by the full fraction returns the second — up to the
/// sign flip that shorter-path correction applies when the dot product is
/// negative.
pub proof fn lemma_slerp_endpoints(q1: Quaternion, q2: Quaternion)
    requires
        -(SCALE as int) <= q1.w <= SCALE as int,
        -(SCALE as int) <= q1.x <= SCALE as int,
        -(SCALE as int) <= q1.y <= SCALE as int,
        -(SCALE as int) <= q1.z <= SCALE as int,
        -(SCALE as int) <= q2.w <= SCALE as int,
        -(SCALE as int) <= q2.x <= SCALE as int,
        -(SCALE as int) <= q2.y <= SCALE as int,
        -(SCALE as int) <= q2.z <= SCALE as int,
    ensures
        spec_slerp(q1, q2, 0) == spec_qnormalize(q1),
        spec_slerp(q1, q2, SCALE as int) == spec_qnormalize(
            if spec_qdot(q1, q2) < 0 {
                spec_qneg(q2)
            } else {
                q2
            },
        ),
{
    let d0 = spec_qdot(q1, q2);
    let q2a = if d0 < 0 {
        spec_qneg(q2)
    } else {
        q2
    };
    let dot = if d0 < 0 {
        -d0
    } else {
        d0
    };
    assert(q2a.w == -q2.w || q2a.w == q2.w);
    lemma_nlerp_endpoints(q1, q2a, 0);
    lemma_nlerp_endpoints(q1, q2a, SCALE as int);
    if dot > DOT_NEAR as int {
    } else {
        let theta = crate::trig::spec_acos(dot);
        crate::trig::lemma_acos_range(dot);
        let st = crate::trig::spec_sin(theta);
        if st <= 0 {
        } else {
            lemma_mul_div_exact(theta);
            crate::trig::lemma_sin_zero();
            lemma_mul_div_zero(theta, SCALE as int);
            lemma_mul_div_zero(SCALE as int, st);
            assert(spec_mul_div(st, SCALE as int, st) == SCALE as int) by {
                vstd::arithmetic::div_mod::lemma_div_by_multiple(SCALE as int, st);
                assert(st * (SCALE as int) == (SCALE as int) * st) by (nonlinear_arith);
            }
            // fraction 0: weights are (SCALE, 0), so the mix is q1
            assert(spec_mul_div((SCALE as int) - 0, theta, SCALE as int) == theta);
            lemma_qmix_endpoints(q1, q2a);
        }
    }
}

/// The linear blend at fraction zero is the first quaternion and at the
/// full fraction is the second, for quaternions within one unit.
proof fn lemma_nlerp_endpoints(q1: Quaternion, q2: Quaternion, t: int)
    requires
        -(SCALE as int) <= q1.w <= SCALE as int,
        -(SCALE as int) <= q1.x <= SCALE as int,
        -(SCALE as int) <= q1.y <= SCALE as int,
        -(SCALE as int) <= q1.z <= SCALE as int,
        -(SCALE as int) <= q2.w <= SCALE as int,
        -(SCALE as int) <= q2.x <= SCALE as int,
        -(SCALE as int) <= q2.y <= SCALE as int,
        -(SCALE as int) <= q2.z <= SCALE as int,
        t == 0 || t == SCALE as int,
    ensures
        t == 0 ==> spec_nlerp(q1, q2, t) == q1,
        t == SCALE as int ==> spec_nlerp(q1, q2, t) == q2,
{
    if t == 0 {
        lemma_mul_div_zero(spec_clamp(q2.w - q1.w, -(SAT as int), SAT as int), SCALE as int);
        lemma_mul_div_zero(spec_clamp(q2.x - q1.x, -(SAT as int), SAT as int), SCALE as int);
        lemma_mul_div_zero(spec_clamp(q2.y - q1.y, -(SAT as int), SAT as int), SCALE as int);
        lemma_mul_div_zero(spec_clamp(q2.z - q1.z, -(SAT as int), SAT as int), SCALE as int);
    } else {
        lemma_mul_div_exact(q2.w - q1.w);
        lemma_mul_div_exact(q2.x - q1.x);
        lemma_mul_div_exact(q2.y - q1.y);
        lemma_mul_div_exact(q2.z - q1.z);
    }
}

/// The spherical mix with weights `(SCALE, 0)` is the first quaternion, and
/// with `(0, SCALE)` the second, for quaternions within one unit.
proof fn lemma_qmix_endpoints(q1: Quaternion, q2: Quaternion)
    requires
        -(SCALE as int) <= q1.w <= SCALE as int,
        -(SCALE as int) <= q1.x <= SCALE as int,
        -(SCALE as int) <= q1.y <= SCALE as int,
        -(SCALE as int) <= q1.z <= SCALE as int,
        -(SCALE as int) <= q2.w <= SCALE as int,
        -(SCALE as int) <= q2.x <= SCALE as int,
        -(SCALE as int) <= q2.y <= SCALE as int,
        -(SCALE as int) <= q2.z <= SCALE as int,
    ensures
        spec_qmix(q1, q2, SCALE as int, 0) == q1,
        spec_qmix(q1, q2, 0, SCALE as int) == q2,
{
    lemma_mul_div_exact(q1.w as int);
    lemma_mul_div_exact(q1.x as int);
    lemma_mul_div_exact(q1.y as int);
    lemma_mul_div_exact(q1.z as int);
    lemma_mul_div_exact(q2.w as int);
    lemma_mul_div_exact(q2.x as int);
    lemma_mul_div_exact(q2.y as int);
    lemma_mul_div_exact(q2.z as int);
    lemma_mul_div_zero(q1.w as int, SCALE as int);
    lemma_mul_div_zero(q1.x as int, SCALE as int);
    lemma_mul_div_zero(q1.y as int, SCALE as int);
    lemma_mul_div_zero(q1.z as int, SCALE as int);
    lemma_mul_div_zero(q2.w as int, SCALE as int);
    lemma_mul_div_zero(q2.x as int, SCALE as int);
    lemma_mul_div_zero(q2.y as int, SCALE as int);
    lemma_mul_div_zero(q2.z as int, SCALE as int);
}

/// Law: one position-blend step never moves the estimate past the fix, so
/// with a constant fix the distance to it never grows.
pub proof fn lemma_position_blend_monotone(pos: int, fix: int, w: int)
    requires
        0 <= w <= SCALE as int,
    ensures
        abs(fix - spec_blend(pos, fix, w)) <= abs(fix - pos),
{
    crate::fixed::lemma_blend_between(pos, fix, w);
}

/// Law: each position-blend step contracts the distance to a constant fix
/// by the factor `(SCALE - w) / SCALE`, up to one nano-unit of rounding —
/// so the estimate converges geometrically and stabilizes within a bounded
/// number of steps.
pub proof fn lemma_position_blend_contraction(pos: int, fix: int, w: int)
    requires
        0 <= w <= SCALE as int,
    ensures
        abs(fix - spec_blend(pos, fix, w)) <= div_tz(((SCALE as int) - w) * abs(fix - pos), SCALE as int) + 1,
{
    let s = SCALE as int;
    let x = pos * (s - w) + fix * w;
    let b = spec_blend(pos, fix, w);
    assert(abs(b * s - x) <= s - 1) by {
        if x >= 0 {
            lemma_fundamental_div_mod(x, s);
            lemma_mod_pos_bound(x, s);
            assert(b == x / s);
            assert((x / s) * s == s * (x / s)) by (nonlinear_arith);
        } else {
            lemma_fundamental_div_mod(-x, s);
            lemma_mod_pos_bound(-x, s);
            assert(b == -((-x) / s));
            assert((-(((-x) / s) as int)) * s == -(s * ((-x) / s))) by (nonlinear_arith);
        }
    }
    let err = fix - b;
    let d = fix - pos;
    assert(fix * s - x == (s - w) * d) by (nonlinear_arith)
        requires
            x == pos * (s - w) + fix * w,
            d == fix - pos,
    ;
    assert(abs(err * s) <= (s - w) * abs(d) + s - 1) by (nonlinear_arith)
        requires
            err == fix - b,
            abs(b * s - x) <= s - 1,
            fix * s - x == (s - w) * d,
            0 <= s - w,
    ;
    let ad = ((s - w) * abs(d)) as int;
    assert(ad >= 0);
    lemma_fundamental_div_mod(ad, s);
    lemma_mod_pos_bound(ad, s);
    assert(abs(err) <= ad / s + 1) by (nonlinear_arith)
        requires
            abs(err * s) == abs(err) * s,
            abs(err) * s <= ad + s - 1,
            ad == s * (ad / s) + ad % s,
            0 <= ad % s < s,
            s == 1_000_000_000,
    ;
    assert(abs(err * s) == abs(err) * s) by (nonlinear_arith)
        requires
            s > 0,
    ;
    assert(div_tz(ad, s) == ad / s);
}

/// Law: position fusion is idempotent at steady state — blending a position
/// that already equals the fix leaves it exactly unchanged.
pub proof fn lemma_position_blend_fixpoint(fix: int, w: int)
    requires
        0 <= w <= SCALE as int,
    ensures
        spec_blend(fix, fix, w) == fix,
{
    let s = SCALE as int;
    assert(fix * (s - w) + fix * w == fix * s) by (nonlinear_arith);
    if fix >= 0 {
        lemma_div_by_multiple(fix, s);
    } else {
        lemma_div_by_multiple(-fix, s);
        assert(-(fix * s) == (-fix) * s && fix * s < 0) by (nonlinear_arith)
            requires
                fix < 0,
                s == 1_000_000_000,
        ;
    }
}

} // verus!
