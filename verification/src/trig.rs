//! Fixed-point trigonometry on nano-radian angles.
//!
//! Angles are `i64` values scaled by [`SCALE`] (so `PI_N` is pi in
//! nano-radians).  `sin_fp`/`cos_fp` reduce the angle into a quarter period
//! and evaluate a truncated Taylor polynomial; `atan2_fp`/`asin_fp` use a
//! quadrant reduction with a rational approximation of the arctangent.
//! Every function is total, returns a value in its mathematical range, and
//! its contract gives the result exactly as a spec-level mirror of the
//! computation.

use vstd::prelude::*;

verus! {

use vstd::arithmetic::div_mod::lemma_fundamental_div_mod_converse;
use vstd::math::abs;
use crate::fixed::{
    SCALE, SAT, div_tz, spec_clamp, spec_mul_div, spec_isqrt, is_sqrt, lemma_isqrt_exists,
    fx_mul_div, clamp, isqrt_u128,
};

/// Pi in nano-radians.
pub const PI_N: i64 = 3_141_592_654;

/// Two pi in nano-radians.
pub const TWO_PI_N: i64 = 6_283_185_307;

/// Pi / 2 in nano-radians.
pub const HALF_PI_N: i64 = 1_570_796_327;

/// Pi / 4 in nano-radians.
pub const QUARTER_PI_N: i64 = 785_398_163;

/// Coefficient of the arctangent approximation
/// `atan(z) ~= z * (pi/4 + K * (1 - z))` on `z` in `[0, 1]`.
pub const ATAN_K: i64 = 273_000_000;

/// The representative of angle `x` in `(-PI_N, PI_N]`, congruent to `x`
/// modulo `TWO_PI_N`.
pub open spec fn spec_wrap(x: int) -> int {
    let m = x % (TWO_PI_N as int);
    if m > PI_N {
        m - TWO_PI_N
    } else {
        m
    }
}

/// Wrap an angle into `(-PI_N, PI_N]`.
pub fn wrap_angle(x: i64) -> (r: i64)
    ensures
        r == spec_wrap(x as int),
        -(PI_N as int) < r <= PI_N,
{
    let d: u64 = TWO_PI_N as u64;
    let mag: u64 = if x >= 0 {
        x as u64
    } else {
        (-(x as i128)) as u64
    };
    let mm: u64 = mag % d;
    let m: i64 = if x >= 0 {
        mm as i64
    } else if mm == 0 {
        0
    } else {
        TWO_PI_N - mm as i64
    };
    proof {
        if x >= 0 {
            assert(m == (x as int) % (TWO_PI_N as int));
        } else {
            let q = (mag as int) / (d as int);
            assert(mag == d * q + mm) by {
                vstd::arithmetic::div_mod::lemma_fundamental_div_mod(mag as int, d as int);
            }
            if mm == 0 {
                lemma_fundamental_div_mod_converse(x as int, d as int, -q, 0);
            } else {
                lemma_fundamental_div_mod_converse(
                    x as int,
                    d as int,
                    -q - 1,
                    d as int - mm as int,
                );
            }
        }
    }
    if m > PI_N {
        m - TWO_PI_N
    } else {
        m
    }
}

/// Taylor polynomial for the sine on a quarter period, clamped into one unit.
pub open spec fn spec_sin_poly(u: int) -> int {
    let x2 = spec_mul_div(u, u, SCALE as int);
    let u3 = spec_mul_div(x2, u, SCALE as int);
    let u5 = spec_mul_div(x2, u3, SCALE as int);
    let u7 = spec_mul_div(x2, u5, SCALE as int);
    spec_clamp(
        u - div_tz(u3, 6) + div_tz(u5, 120) - div_tz(u7, 5040),
        -(SCALE as int),
        SCALE as int,
    )
}

/// The fixed-point sine: wrap, fold into a quarter period, evaluate the
/// polynomial.
pub open spec fn spec_sin(x: int) -> int {
    let w = spec_wrap(x);
    let u = if w > HALF_PI_N {
        PI_N - w
    } else if w < -(HALF_PI_N as int) {
        -(PI_N as int) - w
    } else {
        w
    };
    spec_sin_poly(u)
}

/// Truncating division by a positive constant.
pub fn fx_div(a: i64, d: i64) -> (r: i64)
    requires
        d > 0,
    ensures
        r == div_tz(a as int, d as int),
{
    let neg = a < 0;
    let pa: u128 = if a >= 0 {
        a as u128
    } else {
        (-(a as i128)) as u128
    };
    let q = pa / (d as u128);
    if neg {
        (-(q as i128)) as i64
    } else {
        q as i64
    }
}

fn sin_poly(u: i64) -> (r: i64)
    requires
        -(HALF_PI_N as int) - 2 <= u <= HALF_PI_N as int + 2,
    ensures
        r == spec_sin_poly(u as int),
        -(SCALE as int) <= r <= SCALE as int,
{
    let x2 = fx_mul_div(u, u, SCALE);
    let u3 = fx_mul_div(x2, u, SCALE);
    let u5 = fx_mul_div(x2, u3, SCALE);
    let u7 = fx_mul_div(x2, u5, SCALE);
    let t3 = fx_div(u3, 6);
    let t5 = fx_div(u5, 120);
    let t7 = fx_div(u7, 5040);
    let s: i128 = u as i128 - t3 as i128 + t5 as i128 - t7 as i128;
    if s > SCALE as i128 {
        SCALE
    } else if s < -(SCALE as i128) {
        -SCALE
    } else {
        s as i64
    }
}

/// Sine of a nano-radian angle, in `[-SCALE, SCALE]`.
pub fn sin_fp(x: i64) -> (r: i64)
    ensures
        r == spec_sin(x as int),
        -(SCALE as int) <= r <= SCALE as int,
        x == 0 ==> r == 0,
{
    proof {
        if x == 0 {
            lemma_sin_zero();
        }
    }
    let w = wrap_angle(x);
    let u = if w > HALF_PI_N {
        PI_N - w
    } else if w < -HALF_PI_N {
        -PI_N - w
    } else {
        w
    };
    sin_poly(u)
}

/// Taylor polynomial for the cosine on a quarter period, clamped into one
/// unit.
pub open spec fn spec_cos_poly(u: int) -> int {
    let x2 = spec_mul_div(u, u, SCALE as int);
    let x4 = spec_mul_div(x2, x2, SCALE as int);
    let x6 = spec_mul_div(x4, x2, SCALE as int);
    spec_clamp(
        SCALE - div_tz(x2, 2) + div_tz(x4, 24) - div_tz(x6, 720),
        -(SCALE as int),
        SCALE as int,
    )
}

/// The fixed-point cosine: wrap, fold into a quarter period, evaluate the
/// polynomial with the sign of the half period.
pub open spec fn spec_cos(x: int) -> int {
    let w = spec_wrap(x);
    let aw = if w < 0 {
        -w
    } else {
        w
    };
    if aw > HALF_PI_N {
        -spec_cos_poly(PI_N - aw)
    } else {
        spec_cos_poly(aw)
    }
}

fn cos_poly(u: i64) -> (r: i64)
    requires
        0 <= u <= HALF_PI_N as int + 2,
    ensures
        r == spec_cos_poly(u as int),
        -(SCALE as int) <= r <= SCALE as int,
{
    let x2 = fx_mul_div(u, u, SCALE);
    let x4 = fx_mul_div(x2, x2, SCALE);
    let x6 = fx_mul_div(x4, x2, SCALE);
    let t2 = fx_div(x2, 2);
    let t4 = fx_div(x4, 24);
    let t6 = fx_div(x6, 720);
    let s: i128 = SCALE as i128 - t2 as i128 + t4 as i128 - t6 as i128;
    if s > SCALE as i128 {
        SCALE
    } else if s < -(SCALE as i128) {
        -SCALE
    } else {
        s as i64
    }
}

/// Cosine of a nano-radian angle, in `[-SCALE, SCALE]`.
pub fn cos_fp(x: i64) -> (r: i64)
    ensures
        r == spec_cos(x as int),
        -(SCALE as int) <= r <= SCALE as int,
        x == 0 ==> r == SCALE as int,
{
    proof {
        if x == 0 {
            vstd::arithmetic::div_mod::lemma_small_mod(0nat, TWO_PI_N as nat);
            vstd::arithmetic::div_mod::lemma_div_of0(SCALE as int);
            vstd::arithmetic::div_mod::lemma_div_of0(2);
            vstd::arithmetic::div_mod::lemma_div_of0(24);
            vstd::arithmetic::div_mod::lemma_div_of0(720);
            assert(spec_cos(0) == SCALE as int);
        }
    }
    let w = wrap_angle(x);
    let aw = if w < 0 {
        -w
    } else {
        w
    };
    if aw > HALF_PI_N {
        -cos_poly(PI_N - aw)
    } else {
        cos_poly(aw)
    }
}

/// Rational approximation of the arctangent on `z` in `[0, SCALE]`, in
/// `[0, QUARTER_PI_N + ATAN_K]`.
pub open spec fn spec_atan_poly(z: int) -> int {
    spec_mul_div(
        z,
        QUARTER_PI_N + spec_mul_div(ATAN_K as int, SCALE - z, SCALE as int),
        SCALE as int,
    )
}

/// Bound a saturated multiply-divide from per-factor bounds.
pub proof fn lemma_mul_div_le(a: int, b: int, d: int, ba: int, bb: int, bound: int)
    by (nonlinear_arith)
    requires
        d > 0,
        0 <= ba,
        0 <= bb,
        abs(a) <= ba,
        abs(b) <= bb,
        ba * bb <= bound * d,
        0 <= bound,
    ensures
        -bound <= spec_mul_div(a, b, d) <= bound,
{
}

/// A saturated multiply-divide of non-negative factors is non-negative.
pub proof fn lemma_mul_div_nonneg(a: int, b: int, d: int)
    by (nonlinear_arith)
    requires
        d > 0,
        0 <= a,
        0 <= b,
    ensures
        0 <= spec_mul_div(a, b, d),
{
}

fn atan_poly(z: i64) -> (r: i64)
    requires
        0 <= z <= SCALE as int,
    ensures
        r == spec_atan_poly(z as int),
        0 <= r <= QUARTER_PI_N as int + ATAN_K as int,
{
    let c = fx_mul_div(ATAN_K, SCALE - z, SCALE);
    proof {
        lemma_mul_div_le(ATAN_K as int, SCALE - z, SCALE as int, ATAN_K as int, SCALE as int,
            ATAN_K as int);
        lemma_mul_div_nonneg(ATAN_K as int, SCALE - z, SCALE as int);
    }
    let r = fx_mul_div(z, QUARTER_PI_N + c, SCALE);
    proof {
        lemma_mul_div_le(z as int, QUARTER_PI_N + c, SCALE as int, SCALE as int,
            QUARTER_PI_N as int + ATAN_K as int, QUARTER_PI_N as int + ATAN_K as int);
        lemma_mul_div_nonneg(z as int, QUARTER_PI_N + c, SCALE as int);
    }
    r
}

/// Quadrant-reduced arctangent of `y / x`, in `[-PI_N, PI_N]`.  Inputs are
/// first saturated into `[-SAT, SAT]`.
pub open spec fn spec_atan2(y: int, x: int) -> int {
    let yy = spec_clamp(y, -(SAT as int), SAT as int);
    let xx = spec_clamp(x, -(SAT as int), SAT as int);
    let ay = abs(yy) as int;
    let ax = abs(xx) as int;
    if ax == 0 && ay == 0 {
        0
    } else {
        let base = if ax >= ay {
            spec_atan_poly(div_tz(ay * SCALE, ax))
        } else {
            HALF_PI_N - spec_atan_poly(div_tz(ax * SCALE, ay))
        };
        let q = if xx >= 0 {
            base
        } else {
            PI_N - base
        };
        if yy < 0 {
            -q
        } else {
            q
        }
    }
}

/// Arctangent of `y / x` with quadrant correction, in `[-PI_N, PI_N]`.
pub fn atan2_fp(y: i64, x: i64) -> (r: i64)
    ensures
        r == spec_atan2(y as int, x as int),
        -(PI_N as int) <= r <= PI_N as int,
        x > 0 ==> -(HALF_PI_N as int) <= r <= HALF_PI_N as int,
        y == 0 && x > 0 ==> r == 0,
{
    let yy = clamp(y, -SAT, SAT);
    let xx = clamp(x, -SAT, SAT);
    let ay = if yy < 0 {
        -yy
    } else {
        yy
    };
    let ax = if xx < 0 {
        -xx
    } else {
        xx
    };
    if ax == 0 && ay == 0 {
        return 0;
    }
    let base = if ax >= ay {
        let z = fx_mul_div(ay, SCALE, ax);
        proof {
            assert(div_tz(ay as int * SCALE as int, ax as int) <= SCALE as int
                && 0 <= div_tz(ay as int * SCALE as int, ax as int)) by (nonlinear_arith)
                requires
                    0 <= ay <= ax,
                    0 < ax,
                    SCALE > 0,
            ;
            if ay == 0 {
                vstd::arithmetic::div_mod::lemma_div_of0(ax as int);
                vstd::arithmetic::div_mod::lemma_div_of0(SCALE as int);
                let inner = spec_mul_div(ATAN_K as int, SCALE as int, SCALE as int);
                assert(0int * (QUARTER_PI_N + inner) == 0) by (nonlinear_arith);
                assert(spec_atan_poly(0) == 0);
            }
        }
        atan_poly(z)
    } else {
        let z = fx_mul_div(ax, SCALE, ay);
        proof {
            assert(div_tz(ax as int * SCALE as int, ay as int) <= SCALE as int
                && 0 <= div_tz(ax as int * SCALE as int, ay as int)) by (nonlinear_arith)
                requires
                    0 <= ax < ay,
                    SCALE > 0,
            ;
        }
        HALF_PI_N - atan_poly(z)
    };
    let q = if xx >= 0 {
        base
    } else {
        PI_N - base
    };
    if yy < 0 {
        -q
    } else {
        q
    }
}

/// Arcsine via the arctangent, clamped to `[-HALF_PI_N, HALF_PI_N]`; inputs
/// at or beyond one unit in magnitude saturate to the poles.
pub open spec fn spec_asin(s: int) -> int {
    let ss = spec_clamp(s, -(SAT as int), SAT as int);
    if ss >= SCALE {
        HALF_PI_N as int
    } else if ss <= -(SCALE as int) {
        -(HALF_PI_N as int)
    } else {
        spec_atan2(ss, spec_isqrt((SCALE as int) * (SCALE as int) - ss * ss))
    }
}

/// Arcsine of a fixed-point value, in `[-HALF_PI_N, HALF_PI_N]`.
pub fn asin_fp(s: i64) -> (r: i64)
    ensures
        r == spec_asin(s as int),
        -(HALF_PI_N as int) <= r <= HALF_PI_N as int,
        s == 0 ==> r == 0,
{
    let ss = clamp(s, -SAT, SAT);
    if ss >= SCALE {
        HALF_PI_N
    } else if ss <= -SCALE {
        -HALF_PI_N
    } else {
        proof {
            assert(0 <= (ss as int) * (ss as int) < (SCALE as int) * (SCALE as int))
                by (nonlinear_arith)
                requires
                    -(SCALE as int) < ss < SCALE as int,
                    SCALE > 0,
            ;
        }
        let ssq: i128 = ss as i128 * ss as i128;
        let n: i128 = SCALE as i128 * SCALE as i128 - ssq;
        let c128 = isqrt_u128(n as u128);
        proof {
            assert(c128 <= SCALE) by (nonlinear_arith)
                requires
                    is_sqrt(n as int, c128 as int),
                    0 < n as int <= (SCALE as int) * (SCALE as int),
                    SCALE > 0,
            ;
            assert(c128 >= 1) by (nonlinear_arith)
                requires
                    is_sqrt(n as int, c128 as int),
                    n as int >= 1,
            ;
        }
        let c = c128 as i64;
        atan2_fp(ss, c)
    }
}

/// Arccosine via the arcsine, in `[0, PI_N]`.
pub open spec fn spec_acos(d: int) -> int {
    HALF_PI_N - spec_asin(d)
}

/// Arccosine of a fixed-point value, in `[0, PI_N]`.
pub fn acos_fp(d: i64) -> (r: i64)
    ensures
        r == spec_acos(d as int),
        0 <= r <= PI_N as int,
{
    HALF_PI_N - asin_fp(d)
}

/// The polynomial arctangent maps `[0, SCALE]` into
/// `[0, QUARTER_PI_N + ATAN_K]`.
pub proof fn lemma_atan_poly_range(z: int)
    requires
        0 <= z <= SCALE as int,
    ensures
        0 <= spec_atan_poly(z) <= QUARTER_PI_N as int + ATAN_K as int,
{
    lemma_mul_div_le(ATAN_K as int, SCALE - z, SCALE as int, ATAN_K as int, SCALE as int,
        ATAN_K as int);
    lemma_mul_div_nonneg(ATAN_K as int, SCALE - z, SCALE as int);
    let c = spec_mul_div(ATAN_K as int, SCALE - z, SCALE as int);
    lemma_mul_div_le(z, QUARTER_PI_N + c, SCALE as int, SCALE as int,
        QUARTER_PI_N as int + ATAN_K as int, QUARTER_PI_N as int + ATAN_K as int);
    lemma_mul_div_nonneg(z, QUARTER_PI_N + c, SCALE as int);
}

/// The quadrant-corrected arctangent lies in `[-PI_N, PI_N]`, and in
/// `[-HALF_PI_N, HALF_PI_N]` when `x` is positive.
pub proof fn lemma_atan2_range(y: int, x: int)
    ensures
        -(PI_N as int) <= spec_atan2(y, x) <= PI_N as int,
        x > 0 ==> -(HALF_PI_N as int) <= spec_atan2(y, x) <= HALF_PI_N as int,
{
    let yy = spec_clamp(y, -(SAT as int), SAT as int);
    let xx = spec_clamp(x, -(SAT as int), SAT as int);
    let ay = abs(yy) as int;
    let ax = abs(xx) as int;
    if ax == 0 && ay == 0 {
    } else {
        if ax >= ay {
            assert(0 <= div_tz(ay * SCALE, ax) <= SCALE as int) by (nonlinear_arith)
                requires
                    0 <= ay <= ax,
                    0 < ax,
                    SCALE > 0,
            ;
            lemma_atan_poly_range(div_tz(ay * SCALE, ax));
        } else {
            assert(0 <= div_tz(ax * SCALE, ay) <= SCALE as int) by (nonlinear_arith)
                requires
                    0 <= ax < ay,
                    SCALE > 0,
            ;
            lemma_atan_poly_range(div_tz(ax * SCALE, ay));
        }
    }
}

/// The arcsine lies in `[-HALF_PI_N, HALF_PI_N]`.
pub proof fn lemma_asin_range(s: int)
    ensures
        -(HALF_PI_N as int) <= spec_asin(s) <= HALF_PI_N as int,
{
    let ss = spec_clamp(s, -(SAT as int), SAT as int);
    if ss >= SCALE {
    } else if ss <= -(SCALE as int) {
    } else {
        let n = (SCALE as int) * (SCALE as int) - ss * ss;
        assert(1 <= n <= (SCALE as int) * (SCALE as int)) by (nonlinear_arith)
            requires
                n == (SCALE as int) * (SCALE as int) - ss * ss,
                -(SCALE as int) < ss < SCALE as int,
                SCALE == 1_000_000_000i64,
        ;
        lemma_isqrt_exists(n);
        let c = spec_isqrt(n);
        assert(c >= 1) by (nonlinear_arith)
            requires
                is_sqrt(n, c),
                n >= 1,
        ;
        assert(c <= SAT as int) by (nonlinear_arith)
            requires
                is_sqrt(n, c),
                n <= (SCALE as int) * (SCALE as int),
                SCALE == 1_000_000_000i64,
                SAT == 4_000_000_000_000_000_000i64,
        ;
        lemma_atan2_range(ss, c);
    }
}

/// The arccosine lies in `[0, PI_N]`.
pub proof fn lemma_acos_range(d: int)
    ensures
        0 <= spec_acos(d) <= PI_N as int,
{
    lemma_asin_range(d);
}

/// The sine of zero is zero, at spec level.
pub proof fn lemma_sin_zero()
    ensures
        spec_sin(0) == 0,
{
    vstd::arithmetic::div_mod::lemma_small_mod(0nat, TWO_PI_N as nat);
    vstd::arithmetic::div_mod::lemma_div_of0(SCALE as int);
    vstd::arithmetic::div_mod::lemma_div_of0(6);
    vstd::arithmetic::div_mod::lemma_div_of0(120);
    vstd::arithmetic::div_mod::lemma_div_of0(5040);
    assert(0int % (TWO_PI_N as int) == 0);
    assert(spec_wrap(0) == 0);
    assert(spec_mul_div(0, 0, SCALE as int) == 0);
    assert(spec_sin_poly(0) == 0);
}

} // verus!
