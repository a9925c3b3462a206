//! Core data models: geometry primitives and sensor records.
//!
//! All scalars are fixed-point `i64` values scaled by [`SCALE`]
//! (see [`crate::fixed`]); angles are nano-radians unless a field says
//! degrees, positions are nano-degrees / nano-meters.

use vstd::prelude::*;

verus! {

use crate::clock::now_millis;
use crate::fixed::{
    SCALE, SAT, div_tz, spec_clamp, spec_mul_div, spec_sat_add, spec_isqrt, is_sqrt,
    lemma_i64_square, lemma_isqrt_exists, lemma_mul_div_zero, lemma_square_bound, fx_mul_div,
    sat_add, sat_sub, clamp, isqrt_u128,
};
use vstd::math::abs;
use crate::trig::{PI_N, HALF_PI_N, spec_atan2, spec_asin, atan2_fp, asin_fp};

/// 3D vector for accelerations, angular rates and velocities.
#[derive(Clone, Copy, Debug, PartialEq, Eq, Structural)]
pub struct Vec3 {
    pub x: i64,
    pub y: i64,
    pub z: i64,
}

impl Vec3 {
    /// Create a new 3D vector.
    pub fn new(x: i64, y: i64, z: i64) -> (v: Vec3)
        ensures
            v == (Vec3 { x, y, z }),
    {
        Vec3 { x, y, z }
    }

    /// The zero vector.
    pub fn zero() -> (v: Vec3)
        ensures
            v == Self::spec_zero(),
    {
        Vec3 { x: 0, y: 0, z: 0 }
    }

    /// The zero vector, at spec level.
    pub open spec fn spec_zero() -> Vec3 {
        Vec3 { x: 0, y: 0, z: 0 }
    }

    /// The vector with each component saturated into `[-SAT, SAT]`.
    pub open spec fn spec_clamped(self) -> Vec3 {
        Vec3 {
            x: spec_clamp(self.x as int, -(SAT as int), SAT as int) as i64,
            y: spec_clamp(self.y as int, -(SAT as int), SAT as int) as i64,
            z: spec_clamp(self.z as int, -(SAT as int), SAT as int) as i64,
        }
    }

    /// Squared Euclidean norm.
    pub open spec fn spec_norm_sq(self) -> int {
        (self.x as int) * (self.x as int) + (self.y as int) * (self.y as int) + (self.z as int)
            * (self.z as int)
    }

    /// Magnitude: the integer square root of the squared norm of the
    /// saturated vector, itself saturated.
    pub open spec fn spec_magnitude(self) -> int {
        spec_clamp(spec_isqrt(self.spec_clamped().spec_norm_sq()), 0, SAT as int)
    }

    /// Euclidean magnitude of the vector.
    pub fn magnitude(&self) -> (r: i64)
        ensures
            r == self.spec_magnitude(),
            0 <= r <= SAT as int,
    {
        let cx = clamp(self.x, -SAT, SAT);
        let cy = clamp(self.y, -SAT, SAT);
        let cz = clamp(self.z, -SAT, SAT);
        proof {
            lemma_i64_square(cx as int);
            lemma_i64_square(cy as int);
            lemma_i64_square(cz as int);
        }
        let n: u128 = (cx as i128 * cx as i128) as u128 + (cy as i128 * cy as i128) as u128 + (
        cz as i128 * cz as i128) as u128;
        let m = isqrt_u128(n);
        if m > SAT as u64 {
            SAT
        } else {
            m as i64
        }
    }

    /// One normalization pass: divide each component by the integer square
    /// root of the squared norm, or fall back to the zero vector when the
    /// magnitude has collapsed below `VEC_NORM_EPS` (magnitude close to
    /// zero); division never happens with a small or zero divisor.
    pub open spec fn spec_vnorm_pass(v: Vec3) -> Vec3 {
        let m = spec_isqrt(v.spec_norm_sq());
        if m <= VEC_NORM_EPS {
            Self::spec_zero()
        } else {
            Vec3 {
                x: div_tz((v.x as int) * (SCALE as int), m) as i64,
                y: div_tz((v.y as int) * (SCALE as int), m) as i64,
                z: div_tz((v.z as int) * (SCALE as int), m) as i64,
            }
        }
    }

    /// The normalized (unit) vector, or zero when the magnitude is close to
    /// zero.  Two passes: the first lands near the unit sphere, the second
    /// divides by a square root within a few nano-units of one, so the
    /// result's magnitude is unit to a few parts per billion.
    pub open spec fn spec_normalize(self) -> Vec3 {
        Self::spec_vnorm_pass(Self::spec_vnorm_pass(self.spec_clamped()))
    }

    /// Normalize the vector to unit length (components scaled by `SCALE`);
    /// returns the zero vector when the magnitude is close to zero, and
    /// otherwise a same-direction vector whose squared magnitude provably
    /// lies within one part in a million of one.
    pub fn normalize(&self) -> (v: Vec3)
        ensures
            v == self.spec_normalize(),
            -(SCALE as int) <= v.x <= SCALE as int,
            -(SCALE as int) <= v.y <= SCALE as int,
            -(SCALE as int) <= v.z <= SCALE as int,
            spec_isqrt(self.spec_clamped().spec_norm_sq()) <= VEC_NORM_EPS as int ==> v
                == Self::spec_zero(),
            spec_isqrt(self.spec_clamped().spec_norm_sq()) > VEC_NORM_EPS as int ==> (SCALE as int)
                * (SCALE as int) - 6 * (SCALE as int) <= v.spec_norm_sq() <= (SCALE as int) * (
            SCALE as int) + 3 * (SCALE as int),
            self.x >= 0 ==> v.x >= 0,
            self.x <= 0 ==> v.x <= 0,
            self.y >= 0 ==> v.y >= 0,
            self.y <= 0 ==> v.y <= 0,
            self.z >= 0 ==> v.z >= 0,
            self.z <= 0 ==> v.z <= 0,
    {
        let c = Vec3 {
            x: clamp(self.x, -SAT, SAT),
            y: clamp(self.y, -SAT, SAT),
            z: clamp(self.z, -SAT, SAT),
        };
        proof {
            assert(c == self.spec_clamped());
            lemma_vnormalize_bounds(c);
        }
        let once = vnorm_pass(c);
        vnorm_pass(once)
    }
}

/// Norm threshold (one millionth of a unit) below which a vector counts as
/// having magnitude zero.
pub const VEC_NORM_EPS: i64 = 1000;

fn vnorm_pass(v: Vec3) -> (r: Vec3)
    requires
        -(SAT as int) <= v.x <= SAT as int,
        -(SAT as int) <= v.y <= SAT as int,
        -(SAT as int) <= v.z <= SAT as int,
    ensures
        r == Vec3::spec_vnorm_pass(v),
        -(SCALE as int) <= r.x <= SCALE as int,
        -(SCALE as int) <= r.y <= SCALE as int,
        -(SCALE as int) <= r.z <= SCALE as int,
        v.x >= 0 ==> r.x >= 0,
        v.x <= 0 ==> r.x <= 0,
        v.y >= 0 ==> r.y >= 0,
        v.y <= 0 ==> r.y <= 0,
        v.z >= 0 ==> r.z >= 0,
        v.z <= 0 ==> r.z <= 0,
{
    proof {
        lemma_i64_square(v.x as int);
        lemma_i64_square(v.y as int);
        lemma_i64_square(v.z as int);
    }
    let n: u128 = (v.x as i128 * v.x as i128) as u128 + (v.y as i128 * v.y as i128) as u128 + (
    v.z as i128 * v.z as i128) as u128;
    let m = isqrt_u128(n);
    if m <= VEC_NORM_EPS as u64 {
        Vec3 { x: 0, y: 0, z: 0 }
    } else {
        proof {
            lemma_square_bound(v.x as int, SAT as int);
            lemma_square_bound(v.y as int, SAT as int);
            lemma_square_bound(v.z as int, SAT as int);
            assert(m < 0x8000_0000_0000_0000u64) by (nonlinear_arith)
                requires
                    is_sqrt(n as int, m as int),
                    n as int <= 3 * (SAT as int) * (SAT as int),
                    SAT == 4_000_000_000_000_000_000i64,
            ;
            lemma_component_div_unit(v.x as int, n as int, m as int);
            lemma_component_div_unit(v.y as int, n as int, m as int);
            lemma_component_div_unit(v.z as int, n as int, m as int);
            lemma_scaled_div_sign(v.x as int, m as int);
            lemma_scaled_div_sign(v.y as int, m as int);
            lemma_scaled_div_sign(v.z as int, m as int);
        }
        let mi = m as i64;
        Vec3 {
            x: fx_mul_div(v.x, SCALE, mi),
            y: fx_mul_div(v.y, SCALE, mi),
            z: fx_mul_div(v.z, SCALE, mi),
        }
    }
}

/// Dividing a scaled component by a positive root keeps its sign (or lands
/// on zero).
proof fn lemma_scaled_div_sign(a: int, m: int)
    requires
        m >= 1,
    ensures
        a >= 0 ==> div_tz(a * (SCALE as int), m) >= 0,
        a <= 0 ==> div_tz(a * (SCALE as int), m) <= 0,
{
    if a >= 0 {
        assert(a * (SCALE as int) >= 0) by (nonlinear_arith)
            requires
                a >= 0,
                SCALE == 1_000_000_000i64,
        ;
        vstd::arithmetic::div_mod::lemma_div_pos_is_pos(a * (SCALE as int), m);
    }
    if a <= 0 {
        assert(-(a * (SCALE as int)) >= 0) by (nonlinear_arith)
            requires
                a <= 0,
                SCALE == 1_000_000_000i64,
        ;
        vstd::arithmetic::div_mod::lemma_div_pos_is_pos(-(a * (SCALE as int)), m);
    }
}

/// After one normalization pass through a square root `m >= t`, the squared
/// magnitude is at least `SCALE^2 - 6 SCALE`; and when the pass divides by
/// a root within ten nano-units of one (`t >= SCALE - 10`) it is also at
/// most `SCALE^2 + 3 SCALE`.
proof fn lemma_vpass_norm_bounds(v: Vec3, t: int)
    requires
        t > VEC_NORM_EPS as int,
        spec_isqrt(v.spec_norm_sq()) >= t,
        is_sqrt(v.spec_norm_sq(), spec_isqrt(v.spec_norm_sq())),
    ensures
        Vec3::spec_vnorm_pass(v).spec_norm_sq() >= (SCALE as int) * (SCALE as int) - 6 * (
        SCALE as int),
        t >= SCALE as int - 10 ==> Vec3::spec_vnorm_pass(v).spec_norm_sq() <= (SCALE as int) * (
        SCALE as int) + 3 * (SCALE as int),
{
    let n = v.spec_norm_sq();
    let m = spec_isqrt(n);
    let r = Vec3::spec_vnorm_pass(v);
    lemma_square_bound(v.x as int, 0x8000_0000_0000_0000int);
    lemma_square_bound(v.y as int, 0x8000_0000_0000_0000int);
    lemma_square_bound(v.z as int, 0x8000_0000_0000_0000int);
    lemma_component_div_unit(v.x as int, n, m);
    lemma_component_div_unit(v.y as int, n, m);
    lemma_component_div_unit(v.z as int, n, m);
    let rx = div_tz((v.x as int) * (SCALE as int), m);
    let ry = div_tz((v.y as int) * (SCALE as int), m);
    let rz = div_tz((v.z as int) * (SCALE as int), m);
    assert(r.x == rx && r.y == ry && r.z == rz);
    crate::fixed::lemma_div_sq_bounds(v.x as int, m);
    crate::fixed::lemma_div_sq_bounds(v.y as int, m);
    crate::fixed::lemma_div_sq_bounds(v.z as int, m);
    let s2 = (SCALE as int) * (SCALE as int);
    let mm = m * m;
    let rsum = rx * rx + ry * ry + rz * rz;
    let asum = abs(v.x as int) + abs(v.y as int) + abs(v.z as int);
    assert(asum <= 3 * m);
    assert(rsum * mm == rx * rx * mm + ry * ry * mm + rz * rz * mm) by (nonlinear_arith)
        requires
            rsum == rx * rx + ry * ry + rz * rz,
    ;
    assert(n * s2 == (v.x as int) * (v.x as int) * s2 + (v.y as int) * (v.y as int) * s2 + (
    v.z as int) * (v.z as int) * s2) by (nonlinear_arith)
        requires
            n == (v.x as int) * (v.x as int) + (v.y as int) * (v.y as int) + (v.z as int) * (
            v.z as int),
    ;
    assert(2 * m * (SCALE as int) * asum == 2 * m * (SCALE as int) * abs(v.x as int) + 2 * m * (
    SCALE as int) * abs(v.y as int) + 2 * m * (SCALE as int) * abs(v.z as int))
        by (nonlinear_arith)
        requires
            asum == abs(v.x as int) + abs(v.y as int) + abs(v.z as int),
    ;
    assert(rsum * mm <= n * s2);
    assert(rsum * mm >= n * s2 - 2 * m * (SCALE as int) * asum);
    assert(2 * m * (SCALE as int) * asum <= 6 * (SCALE as int) * mm && n * s2 >= mm * s2)
        by (nonlinear_arith)
        requires
            asum <= 3 * m,
            0 <= asum,
            m >= 1,
            mm == m * m,
            n >= mm,
            s2 == (SCALE as int) * (SCALE as int),
            SCALE == 1_000_000_000i64,
    ;
    assert(mm >= 1) by (nonlinear_arith)
        requires
            mm == m * m,
            m >= 1,
    ;
    assert(rsum >= s2 - 6 * (SCALE as int)) by (nonlinear_arith)
        requires
            rsum * mm >= mm * s2 - 6 * (SCALE as int) * mm,
            mm >= 1,
            s2 == (SCALE as int) * (SCALE as int),
            SCALE == 1_000_000_000i64,
    ;
    if t >= SCALE as int - 10 {
        assert(rsum <= s2 + 3 * (SCALE as int)) by (nonlinear_arith)
            requires
                rsum * mm <= n * s2,
                mm == m * m,
                n < (m + 1) * (m + 1),
                m >= SCALE as int - 10,
                s2 == (SCALE as int) * (SCALE as int),
                SCALE == 1_000_000_000i64,
        ;
    }
    assert(r.spec_norm_sq() == rsum);
}

/// The two-pass vector normalization either returns the zero vector (the
/// magnitude was close to zero) or lands with a squared magnitude within
/// `[SCALE^2 - 6 SCALE, SCALE^2 + 3 SCALE]` — inside one part in a million
/// of the unit sphere.
pub proof fn lemma_vnormalize_bounds(w: Vec3)
    ensures
        spec_isqrt(w.spec_norm_sq()) <= VEC_NORM_EPS as int ==> Vec3::spec_vnorm_pass(
            Vec3::spec_vnorm_pass(w),
        ) == Vec3::spec_zero(),
        spec_isqrt(w.spec_norm_sq()) > VEC_NORM_EPS as int ==> (SCALE as int) * (SCALE as int) - 6
            * (SCALE as int) <= Vec3::spec_vnorm_pass(Vec3::spec_vnorm_pass(w)).spec_norm_sq() <= (
        SCALE as int) * (SCALE as int) + 3 * (SCALE as int),
{
    let n1 = w.spec_norm_sq();
    lemma_square_bound(w.x as int, 0x8000_0000_0000_0000int);
    lemma_square_bound(w.y as int, 0x8000_0000_0000_0000int);
    lemma_square_bound(w.z as int, 0x8000_0000_0000_0000int);
    lemma_isqrt_exists(n1);
    let m1 = spec_isqrt(n1);
    let once = Vec3::spec_vnorm_pass(w);
    if m1 <= VEC_NORM_EPS as int {
        assert(once == Vec3::spec_zero());
        assert(once.spec_norm_sq() == 0) by (nonlinear_arith)
            requires
                once.x == 0 && once.y == 0 && once.z == 0,
                once.spec_norm_sq() == (once.x as int) * (once.x as int) + (once.y as int) * (
                once.y as int) + (once.z as int) * (once.z as int),
        ;
        lemma_isqrt_exists(0);
        assert(is_sqrt(0, 0));
        crate::fixed::lemma_isqrt_unique(0, 0, spec_isqrt(0));
    } else {
        lemma_vpass_norm_bounds(w, VEC_NORM_EPS as int + 1);
        let n2 = once.spec_norm_sq();
        lemma_isqrt_exists(n2);
        let m2 = spec_isqrt(n2);
        assert(m2 >= SCALE as int - 5) by (nonlinear_arith)
            requires
                is_sqrt(n2, m2),
                n2 >= (SCALE as int) * (SCALE as int) - 6 * (SCALE as int),
                SCALE == 1_000_000_000i64,
        ;
        lemma_vpass_norm_bounds(once, SCALE as int - 5);
    }
}

/// Dividing a component of a vector by the vector's integer-square-root norm
/// stays within one unit, so the saturation in `spec_mul_div` is inert.
pub proof fn lemma_component_div_unit(c: int, n: int, m: int)
    requires
        is_sqrt(n, m),
        m >= 1,
        c * c <= n,
    ensures
        spec_mul_div(c, SCALE as int, m) == div_tz(c * (SCALE as int), m),
        -(SCALE as int) <= div_tz(c * (SCALE as int), m) <= SCALE as int,
        abs(c) <= m,
{
    assert(abs(c) <= m) by (nonlinear_arith)
        requires
            c * c <= n,
            is_sqrt(n, m),
    ;
    assert(abs(c) * (SCALE as int) <= m * (SCALE as int) && abs(c * (SCALE as int)) == abs(c) * (
    SCALE as int) && 0 <= abs(c) * (SCALE as int)) by (nonlinear_arith)
        requires
            abs(c) <= m,
            SCALE > 0,
    ;
    vstd::arithmetic::div_mod::lemma_div_is_ordered(
        abs(c) as int * (SCALE as int),
        m * (SCALE as int),
        m,
    );
    vstd::arithmetic::div_mod::lemma_div_by_multiple(SCALE as int, m);
    assert((m * (SCALE as int)) / m == SCALE as int) by {
        assert(m * (SCALE as int) == (SCALE as int) * m) by (nonlinear_arith);
    }
    vstd::arithmetic::div_mod::lemma_div_pos_is_pos(abs(c) as int * (SCALE as int), m);
}

/// Unit quaternion for 3D orientation.
#[derive(Clone, Copy, Debug, PartialEq, Eq, Structural)]
pub struct Quaternion {
    pub w: i64,
    pub x: i64,
    pub y: i64,
    pub z: i64,
}

impl Quaternion {
    /// Create a new quaternion.
    pub fn new(w: i64, x: i64, y: i64, z: i64) -> (q: Quaternion)
        ensures
            q == (Quaternion { w, x, y, z }),
    {
        Quaternion { w, x, y, z }
    }

    /// Identity quaternion (no rotation).
    pub fn identity() -> (q: Quaternion)
        ensures
            q == Self::spec_identity(),
    {
        Quaternion { w: SCALE, x: 0, y: 0, z: 0 }
    }

    /// The identity quaternion, at spec level.
    pub open spec fn spec_identity() -> Quaternion {
        Quaternion { w: SCALE, x: 0, y: 0, z: 0 }
    }

    /// Squared norm of the quaternion.
    pub open spec fn spec_norm_sq(self) -> int {
        (self.w as int) * (self.w as int) + (self.x as int) * (self.x as int) + (self.y as int)
            * (self.y as int) + (self.z as int) * (self.z as int)
    }

    /// The `2 * (a*b + c*d)` combination used by the Euler conversion.
    pub open spec fn spec_qsum(a: int, b: int, c: int, d: int) -> int {
        let t = spec_sat_add(
            spec_mul_div(a, b, SCALE as int),
            spec_mul_div(c, d, SCALE as int),
        );
        spec_sat_add(t, t)
    }

    /// The `2 * (a*b - c*d)` combination used by the Euler conversion.
    pub open spec fn spec_qdiff(a: int, b: int, c: int, d: int) -> int {
        let t = spec_clamp(
            spec_mul_div(a, b, SCALE as int) - spec_mul_div(c, d, SCALE as int),
            -(SAT as int),
            SAT as int,
        );
        spec_sat_add(t, t)
    }

    /// The `1 - 2 * (a*a + b*b)` combination used by the Euler conversion.
    pub open spec fn spec_qcos(a: int, b: int) -> int {
        spec_clamp(
            SCALE - Self::spec_qsum(a, a, b, b),
            -(SAT as int),
            SAT as int,
        )
    }

    /// Roll of the quaternion (aerospace convention), nano-radians.
    pub open spec fn spec_roll(self) -> int {
        spec_atan2(
            Self::spec_qsum(self.w as int, self.x as int, self.y as int, self.z as int),
            Self::spec_qcos(self.x as int, self.y as int),
        )
    }

    /// Pitch of the quaternion, nano-radians, clamped to the gimbal poles.
    pub open spec fn spec_pitch(self) -> int {
        spec_asin(Self::spec_qdiff(self.w as int, self.y as int, self.z as int, self.x as int))
    }

    /// Yaw of the quaternion, nano-radians.
    pub open spec fn spec_yaw(self) -> int {
        spec_atan2(
            Self::spec_qsum(self.w as int, self.z as int, self.x as int, self.y as int),
            Self::spec_qcos(self.y as int, self.z as int),
        )
    }

    /// Convert to Euler angles (roll, pitch, yaw), in nano-radians.  Pitch
    /// saturates to plus or minus a quarter turn at the gimbal-lock
    /// boundary.
    pub fn to_euler(&self) -> (e: (i64, i64, i64))
        ensures
            e.0 == self.spec_roll(),
            e.1 == self.spec_pitch(),
            e.2 == self.spec_yaw(),
            -(PI_N as int) <= e.0 <= PI_N as int,
            -(HALF_PI_N as int) <= e.1 <= HALF_PI_N as int,
            -(PI_N as int) <= e.2 <= PI_N as int,
            self == Self::spec_identity() ==> e == (0i64, 0i64, 0i64),
    {
        proof {
            if *self == Self::spec_identity() {
                lemma_mul_div_zero(SCALE as int, SCALE as int);
                lemma_mul_div_zero(0, SCALE as int);
            }
        }
        let sinr = qsum(self.w, self.x, self.y, self.z);
        let cosr = qcos(self.x, self.y);
        let roll = atan2_fp(sinr, cosr);
        let sinp = qdiff(self.w, self.y, self.z, self.x);
        let pitch = asin_fp(sinp);
        let siny = qsum(self.w, self.z, self.x, self.y);
        let cosy = qcos(self.y, self.z);
        let yaw = atan2_fp(siny, cosy);
        (roll, pitch, yaw)
    }
}

fn qsum(a: i64, b: i64, c: i64, d: i64) -> (r: i64)
    ensures
        r == Quaternion::spec_qsum(a as int, b as int, c as int, d as int),
{
    let t = sat_add(fx_mul_div(a, b, SCALE), fx_mul_div(c, d, SCALE));
    sat_add(t, t)
}

fn qdiff(a: i64, b: i64, c: i64, d: i64) -> (r: i64)
    ensures
        r == Quaternion::spec_qdiff(a as int, b as int, c as int, d as int),
{
    let t = sat_sub(fx_mul_div(a, b, SCALE), fx_mul_div(c, d, SCALE));
    sat_add(t, t)
}

fn qcos(a: i64, b: i64) -> (r: i64)
    ensures
        r == Quaternion::spec_qcos(a as int, b as int),
{
    sat_sub(SCALE, qsum(a, a, b, b))
}

/// Raw inertial sample: accelerometer and gyroscope readings with noise
/// characteristics.  The timestamp is in milliseconds since the epoch.
#[derive(Clone, Copy, Debug, PartialEq, Eq, Structural)]
pub struct ImuData {
    /// Timestamp of the measurement, milliseconds since the epoch.
    pub timestamp: i64,
    /// Linear acceleration (includes gravity), nano-(m/s^2).
    pub acceleration: Vec3,
    /// Angular velocity, nano-(rad/s).
    pub gyroscope: Vec3,
    /// Estimated noise level in `[0, SCALE]`.
    pub noise_level: i64,
    /// Sensor health in `[0, SCALE]`.
    pub health: i64,
}

impl ImuData {
    /// Create new inertial data, stamped with the current wall clock.
    pub fn new(acceleration: Vec3, gyroscope: Vec3) -> (d: ImuData)
        ensures
            d.acceleration == acceleration,
            d.gyroscope == gyroscope,
            d.noise_level == SCALE / 10,
            d.health == SCALE,
    {
        ImuData {
            timestamp: now_millis(),
            acceleration,
            gyroscope,
            noise_level: SCALE / 10,
            health: SCALE,
        }
    }
}

/// Positioning sample: geodetic fix with quality figures.  Latitude,
/// longitude and heading are nano-degrees, altitude nano-meters.
#[derive(Clone, Copy, Debug, PartialEq, Eq, Structural)]
pub struct GpsData {
    /// Timestamp of the measurement, milliseconds since the epoch.
    pub timestamp: i64,
    /// Latitude, nano-degrees.
    pub latitude: i64,
    /// Longitude, nano-degrees.
    pub longitude: i64,
    /// Altitude above sea level, nano-meters.
    pub altitude: i64,
    /// Ground speed, nano-(m/s).
    pub speed: i64,
    /// Heading, nano-degrees in `[0, 360 * SCALE)`, 0 = north.
    pub heading: i64,
    /// Horizontal dilution of precision (scaled by `SCALE`, lower is
    /// better).
    pub hdop: i64,
    /// Number of satellites in view.
    pub satellites: u8,
    /// Sensor health in `[0, SCALE]`.
    pub health: i64,
}

impl GpsData {
    /// Create new positioning data, stamped with the current wall clock.
    pub fn new(latitude: i64, longitude: i64, altitude: i64) -> (d: GpsData)
        ensures
            d.latitude == latitude,
            d.longitude == longitude,
            d.altitude == altitude,
            d.speed == 0,
            d.heading == 0,
            d.hdop == SCALE,
            d.satellites == 8,
            d.health == SCALE,
    {
        GpsData {
            timestamp: now_millis(),
            latitude,
            longitude,
            altitude,
            speed: 0,
            heading: 0,
            hdop: SCALE,
            satellites: 8,
            health: SCALE,
        }
    }
}

/// A geodetic position triplet: latitude and longitude in nano-degrees,
/// altitude in nano-meters.
#[derive(Clone, Copy, Debug, PartialEq, Eq, Structural)]
pub struct GeoPos {
    /// Latitude, nano-degrees.
    pub lat: i64,
    /// Longitude, nano-degrees.
    pub lon: i64,
    /// Altitude, nano-meters.
    pub alt: i64,
}

/// Euler angles (roll, pitch, yaw).
#[derive(Clone, Copy, Debug, PartialEq, Eq, Structural)]
pub struct EulerAngles {
    /// Rotation about the forward axis.
    pub roll: i64,
    /// Rotation about the right axis.
    pub pitch: i64,
    /// Rotation about the down axis.
    pub yaw: i64,
}

/// One fused estimate: orientation, position, velocity, echoes of the raw
/// inputs, and quality figures.
#[derive(Clone, Copy, Debug)]
pub struct FusedSensorData {
    /// Timestamp of the fused estimate, milliseconds since the epoch.
    pub timestamp: i64,
    /// Estimated orientation.
    pub orientation: Quaternion,
    /// Euler angles in nano-degrees.
    pub euler_degrees: EulerAngles,
    /// Estimated position.
    pub position: GeoPos,
    /// Estimated linear velocity, nano-(m/s).
    pub velocity: Vec3,
    /// Raw accelerometer reading.
    pub raw_acceleration: Vec3,
    /// Raw gyroscope reading.
    pub raw_gyroscope: Vec3,
    /// Positioning ground speed, nano-(m/s).
    pub gps_speed: i64,
    /// Positioning heading, nano-degrees.
    pub gps_heading: i64,
    /// Fusion confidence in `[0, SCALE]`.
    pub confidence: i64,
    /// Overall system health in `[0, SCALE]`.
    pub system_health: i64,
    /// Anomaly score from the external scorer, in `[0, SCALE]`, if one has
    /// been supplied.
    pub anomaly_score: Option<i64>,
}

impl FusedSensorData {
    /// Whether every field that is constant in a fresh estimate has its
    /// default value.
    pub open spec fn is_fresh(self) -> bool {
        &&& self.orientation == Quaternion::spec_identity()
        &&& self.euler_degrees == (EulerAngles { roll: 0, pitch: 0, yaw: 0 })
        &&& self.position == (GeoPos { lat: 0, lon: 0, alt: 0 })
        &&& self.velocity == Vec3::spec_zero()
        &&& self.raw_acceleration == Vec3::spec_zero()
        &&& self.raw_gyroscope == Vec3::spec_zero()
        &&& self.gps_speed == 0
        &&& self.gps_heading == 0
        &&& self.confidence == SCALE
        &&& self.system_health == SCALE
        &&& self.anomaly_score is None
    }

    /// Create fused data with default initialization, stamped with the
    /// current wall clock.
    pub fn new() -> (d: FusedSensorData)
        ensures
            d.is_fresh(),
    {
        FusedSensorData {
            timestamp: now_millis(),
            orientation: Quaternion::identity(),
            euler_degrees: EulerAngles { roll: 0, pitch: 0, yaw: 0 },
            position: GeoPos { lat: 0, lon: 0, alt: 0 },
            velocity: Vec3::zero(),
            raw_acceleration: Vec3::zero(),
            raw_gyroscope: Vec3::zero(),
            gps_speed: 0,
            gps_heading: 0,
            confidence: SCALE,
            system_health: SCALE,
            anomaly_score: None,
        }
    }

    /// Attach an anomaly score from the external scorer, clamped into
    /// `[0, SCALE]`; every other field is left untouched.
    pub fn set_anomaly_score(&mut self, score: i64)
        ensures
            final(self).anomaly_score == Some(
                spec_clamp(score as int, 0, SCALE as int) as i64,
            ),
            *final(self) == (FusedSensorData {
                anomaly_score: final(self).anomaly_score,
                ..*old(self)
            }),
    {
        self.anomaly_score = Some(clamp(score, 0, SCALE));
    }
}

impl Default for FusedSensorData {
    /// A fresh estimate, as `new` builds it.
    fn default() -> (d: Self)
        ensures
            d.is_fresh(),
    {
        FusedSensorData::new()
    }
}

} // verus!
