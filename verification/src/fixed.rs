//! Fixed-point scalar arithmetic.
//!
//! Every physical quantity in this crate is an `i64` holding the quantity
//! scaled by [`SCALE`] (nano-units).  The helpers here do the multiplications
//! and divisions in 128-bit arithmetic and saturate results into
//! `[-SAT, SAT]`, so callers never face overflow.

use vstd::prelude::*;

verus! {

use vstd::math::abs;
use vstd::arithmetic::div_mod::{lemma_fundamental_div_mod, lemma_mod_pos_bound};

/// One fixed-point unit: scalars are integers scaled by this factor.
pub const SCALE: i64 = 1_000_000_000;

/// Saturation bound for stored scalars.  Keeping every stored value inside
/// `[-SAT, SAT]` means a sum of four products of stored values still fits in
/// an `i128`/`u128`.
pub const SAT: i64 = 4_000_000_000_000_000_000;

/// Truncating (round-toward-zero) division, the behaviour of machine
/// division done on magnitudes with the sign reapplied.
pub open spec fn div_tz(a: int, b: int) -> int
    recommends
        b > 0,
{
    if a >= 0 {
        a / b
    } else {
        -((-a) / b)
    }
}

/// Clamp `x` into `[lo, hi]`.
pub open spec fn spec_clamp(x: int, lo: int, hi: int) -> int {
    if x < lo {
        lo
    } else if x > hi {
        hi
    } else {
        x
    }
}

/// `(a * b) / d`, rounded toward zero, saturated into `[-SAT, SAT]`.
pub open spec fn spec_mul_div(a: int, b: int, d: int) -> int {
    spec_clamp(div_tz(a * b, d), -(SAT as int), SAT as int)
}

/// `a + b` saturated into `[-SAT, SAT]`.
pub open spec fn spec_sat_add(a: int, b: int) -> int {
    spec_clamp(a + b, -(SAT as int), SAT as int)
}

/// Magnitude of `a` as a `u128`.
fn abs_u128(a: i64) -> (r: u128)
    ensures
        r == abs(a as int),
{
    if a >= 0 {
        a as u128
    } else {
        (-(a as i128)) as u128
    }
}

/// Fixed-point multiply-then-divide: `(a * b) / d` rounded toward zero and
/// saturated into `[-SAT, SAT]`.
pub fn fx_mul_div(a: i64, b: i64, d: i64) -> (r: i64)
    requires
        d > 0,
    ensures
        r == spec_mul_div(a as int, b as int, d as int),
{
    let neg = (a < 0) != (b < 0);
    let pa = abs_u128(a);
    let pb = abs_u128(b);
    proof {
        assert(pa * pb == abs((a as int) * (b as int))) by (nonlinear_arith)
            requires
                pa == abs(a as int),
                pb == abs(b as int),
        ;
        assert(pa * pb <= 0x4000_0000_0000_0000_0000_0000_0000_0000u128) by (nonlinear_arith)
            requires
                pa <= 0x8000_0000_0000_0000u128,
                pb <= 0x8000_0000_0000_0000u128,
        ;
        assert(neg && pa * pb != 0 ==> (a as int) * (b as int) < 0) by (nonlinear_arith)
            requires
                pa == abs(a as int),
                pb == abs(b as int),
                neg == ((a < 0) != (b < 0)),
        ;
        assert(!neg ==> (a as int) * (b as int) >= 0) by (nonlinear_arith)
            requires
                pa == abs(a as int),
                pb == abs(b as int),
                neg == ((a < 0) != (b < 0)),
        ;
    }
    let q = pa * pb / (d as u128);
    let qs: u128 = if q > SAT as u128 {
        SAT as u128
    } else {
        q
    };
    let r: i64 = if neg {
        (-(qs as i128)) as i64
    } else {
        qs as i64
    };
    proof {
        let p = (a as int) * (b as int);
        assert(q == (abs(p) as int) / (d as int));
        if p >= 0 {
            assert(div_tz(p, d as int) == q);
        } else {
            assert(div_tz(p, d as int) == -(q as int));
        }
    }
    r
}

/// Saturating addition of two scalars.
pub fn sat_add(a: i64, b: i64) -> (r: i64)
    ensures
        r == spec_sat_add(a as int, b as int),
{
    let s = a as i128 + b as i128;
    if s > SAT as i128 {
        SAT
    } else if s < -(SAT as i128) {
        -SAT
    } else {
        s as i64
    }
}

/// Saturating subtraction of two scalars.
pub fn sat_sub(a: i64, b: i64) -> (r: i64)
    ensures
        r == spec_clamp(a - b, -(SAT as int), SAT as int),
{
    let s = a as i128 - b as i128;
    if s > SAT as i128 {
        SAT
    } else if s < -(SAT as i128) {
        -SAT
    } else {
        s as i64
    }
}

/// A tick count times a per-tick phase factor, saturated: the phase
/// argument of the simulators' periodic ground-truth signals.
pub open spec fn spec_tick_phase(t: int, f: int) -> int {
    spec_clamp(t * f, -(SAT as int), SAT as int)
}

/// A tick count times a per-tick phase factor, saturated.
pub fn tick_phase(t: u64, f: i64) -> (r: i64)
    requires
        0 <= f <= SCALE as int,
    ensures
        r == spec_tick_phase(t as int, f as int),
{
    proof {
        assert(0 <= (t as int) * (f as int)
            <= 0x7000_0000_0000_0000_0000_0000_0000_0000int) by (nonlinear_arith)
            requires
                0 <= t <= 0xffff_ffff_ffff_ffffu64,
                0 <= f <= SCALE as int,
                SCALE == 1_000_000_000i64,
        ;
    }
    let p: i128 = t as i128 * f as i128;
    if p > SAT as i128 {
        SAT
    } else {
        p as i64
    }
}

/// Low-pass blend of `pos` toward `fix` with weight `w / SCALE`:
/// `(pos * (SCALE - w) + fix * w) / SCALE`, rounded toward zero.
pub open spec fn spec_blend(pos: int, fix: int, w: int) -> int {
    div_tz(pos * ((SCALE as int) - w) + fix * w, SCALE as int)
}

/// The blend of two values lies between them.
pub proof fn lemma_blend_between(pos: int, fix: int, w: int)
    requires
        0 <= w <= SCALE as int,
    ensures
        spec_blend(pos, fix, w) >= if pos <= fix {
            pos
        } else {
            fix
        },
        spec_blend(pos, fix, w) <= if pos >= fix {
            pos
        } else {
            fix
        },
{
    let s = SCALE as int;
    let nm = pos * (s - w) + fix * w;
    let mn = if pos <= fix {
        pos
    } else {
        fix
    };
    let mx = if pos >= fix {
        pos
    } else {
        fix
    };
    assert(mn * s <= nm <= mx * s) by (nonlinear_arith)
        requires
            0 <= w <= s,
            s == SCALE as int,
            SCALE == 1_000_000_000i64,
            nm == pos * (s - w) + fix * w,
            mn <= pos <= mx,
            mn <= fix <= mx,
    ;
    if nm >= 0 {
        assert(spec_blend(pos, fix, w) == nm / s);
        assert(mx >= 0) by (nonlinear_arith)
            requires
                mx * s >= nm >= 0,
                s > 0,
        ;
        vstd::arithmetic::div_mod::lemma_div_is_ordered(nm, mx * s, s);
        vstd::arithmetic::div_mod::lemma_div_by_multiple(mx, s);
        vstd::arithmetic::div_mod::lemma_div_pos_is_pos(nm, s);
        if mn >= 0 {
            vstd::arithmetic::div_mod::lemma_div_is_ordered(mn * s, nm, s);
            vstd::arithmetic::div_mod::lemma_div_by_multiple(mn, s);
        }
    } else {
        assert(spec_blend(pos, fix, w) == -((-nm) / s));
        assert(mn < 0 && -nm <= (-mn) * s) by (nonlinear_arith)
            requires
                mn * s <= nm,
                nm < 0,
                s > 0,
        ;
        vstd::arithmetic::div_mod::lemma_div_is_ordered(-nm, (-mn) * s, s);
        vstd::arithmetic::div_mod::lemma_div_by_multiple(-mn, s);
        vstd::arithmetic::div_mod::lemma_div_pos_is_pos(-nm, s);
        if mx < 0 {
            assert((-mx) * s <= -nm) by (nonlinear_arith)
                requires
                    nm <= mx * s,
            ;
            vstd::arithmetic::div_mod::lemma_div_is_ordered((-mx) * s, -nm, s);
            vstd::arithmetic::div_mod::lemma_div_by_multiple(-mx, s);
        }
    }
}

/// Low-pass blend of `pos` toward `fix` with weight `w / SCALE`.
pub fn blend(pos: i64, fix: i64, w: i64) -> (r: i64)
    requires
        0 <= w <= SCALE as int,
    ensures
        r == spec_blend(pos as int, fix as int, w as int),
        r >= if pos <= fix {
            pos
        } else {
            fix
        },
        r <= if pos >= fix {
            pos
        } else {
            fix
        },
{
    proof {
        lemma_blend_between(pos as int, fix as int, w as int);
    }
    proof {
        assert(pos as i128 * ((SCALE - w) as i128) == (pos as int) * ((SCALE as int) - w)
            && -0x8000_0000_0000_0000_0000_0000_0000i128 <= pos as i128 * ((SCALE - w) as i128)
            <= 0x8000_0000_0000_0000_0000_0000_0000i128) by (nonlinear_arith)
            requires
                -0x8000_0000_0000_0000i128 <= pos <= 0x7fff_ffff_ffff_ffffi128,
                0 <= (SCALE as int) - w <= SCALE as int,
                SCALE == 1_000_000_000i64,
        ;
        assert(fix as i128 * (w as i128) == (fix as int) * (w as int)
            && -0x8000_0000_0000_0000_0000_0000_0000i128 <= fix as i128 * (w as i128)
            <= 0x8000_0000_0000_0000_0000_0000_0000i128) by (nonlinear_arith)
            requires
                -0x8000_0000_0000_0000i128 <= fix <= 0x7fff_ffff_ffff_ffffi128,
                0 <= w <= SCALE as int,
                SCALE == 1_000_000_000i64,
        ;
    }
    let nm: i128 = pos as i128 * (SCALE - w) as i128 + fix as i128 * w as i128;
    if nm >= 0 {
        let q = (nm as u128) / (SCALE as u128);
        q as i64
    } else {
        let q = ((-nm) as u128) / (SCALE as u128);
        (-(q as i128)) as i64
    }
}

/// A saturated multiply-divide with a zero factor is zero.
pub proof fn lemma_mul_div_zero(a: int, d: int)
    requires
        d > 0,
    ensures
        spec_mul_div(a, 0, d) == 0,
        spec_mul_div(0, a, d) == 0,
{
    assert(a * 0 == 0 && 0 * a == 0) by (nonlinear_arith);
    vstd::arithmetic::div_mod::lemma_div_of0(d);
}

/// Multiplying by `SCALE` and dividing by `SCALE` is the identity on
/// `[-SAT, SAT]`.
pub proof fn lemma_mul_div_exact(a: int)
    requires
        -(SAT as int) <= a <= SAT as int,
    ensures
        spec_mul_div(SCALE as int, a, SCALE as int) == a,
        spec_mul_div(a, SCALE as int, SCALE as int) == a,
{
    let s = SCALE as int;
    if a >= 0 {
        vstd::arithmetic::div_mod::lemma_div_by_multiple(a, s);
        assert(s * a == a * s) by (nonlinear_arith);
    } else {
        vstd::arithmetic::div_mod::lemma_div_by_multiple(-a, s);
        assert(s * a == a * s && -(s * a) == (-a) * s && s * a < 0) by (nonlinear_arith)
            requires
                a < 0,
                s == SCALE as int,
                SCALE == 1_000_000_000i64,
        ;
    }
}

/// Squares respect bounds on the magnitude.
pub proof fn lemma_square_bound(a: int, b: int)
    by (nonlinear_arith)
    requires
        abs(a) <= b,
    ensures
        0 <= a * a <= b * b,
{
}

/// The square of an `i64` fits well inside a `u128`.
pub proof fn lemma_i64_square(a: int)
    by (nonlinear_arith)
    requires
        -0x8000_0000_0000_0000 <= a <= 0x7fff_ffff_ffff_ffff,
    ensures
        0 <= a * a <= 0x4000_0000_0000_0000_0000_0000_0000_0000int,
{
}

/// Clamp a scalar into `[lo, hi]`.
pub fn clamp(x: i64, lo: i64, hi: i64) -> (r: i64)
    requires
        lo <= hi,
    ensures
        r == spec_clamp(x as int, lo as int, hi as int),
{
    if x < lo {
        lo
    } else if x > hi {
        hi
    } else {
        x
    }
}

/// Bounds on the square of one normalized component: with `b = |a| * SCALE`
/// and `r = div_tz(a * SCALE, m)`, truncating division loses less than one
/// unit, so `r^2 m^2` is between `a^2 SCALE^2 - 2 m SCALE |a|` and
/// `a^2 SCALE^2`.
pub proof fn lemma_div_sq_bounds(a: int, m: int)
    requires
        m >= 1,
    ensures
        div_tz(a * (SCALE as int), m) * div_tz(a * (SCALE as int), m) * (m * m) <= a * a * ((
        SCALE as int) * (SCALE as int)),
        div_tz(a * (SCALE as int), m) * div_tz(a * (SCALE as int), m) * (m * m) >= a * a * ((
        SCALE as int) * (SCALE as int)) - 2 * m * (SCALE as int) * abs(a),
{
    let b = (abs(a) as int) * (SCALE as int);
    assert(b >= 0 && b == abs(a * (SCALE as int))) by (nonlinear_arith)
        requires
            b == (abs(a) as int) * (SCALE as int),
            SCALE == 1_000_000_000i64,
    ;
    lemma_fundamental_div_mod(b, m);
    lemma_mod_pos_bound(b, m);
    let bq = b / m;
    assert(m * bq <= b <= m * bq + m - 1);
    assert(bq >= 0) by (nonlinear_arith)
        requires
            m >= 1,
            b >= 0,
            b == m * bq + b % m,
            0 <= b % m < m,
    ;
    let d = div_tz(a * (SCALE as int), m);
    assert(d == if a >= 0 {
        bq
    } else {
        -bq
    });
    assert((bq * bq) * (m * m) <= b * b && (bq * bq) * (m * m) >= b * b - 2 * m * b)
        by (nonlinear_arith)
        requires
            m >= 1,
            bq >= 0,
            m * bq <= b <= m * bq + m - 1,
    ;
    assert(b * b == a * a * ((SCALE as int) * (SCALE as int)) && 2 * m * b == 2 * m * (
    SCALE as int) * abs(a)) by (nonlinear_arith)
        requires
            b == (abs(a) as int) * (SCALE as int),
    ;
    assert(d * d == bq * bq) by (nonlinear_arith)
        requires
            d == bq || d == -bq,
    ;
    assert(d * d * (m * m) == (bq * bq) * (m * m)) by (nonlinear_arith)
        requires
            d * d == bq * bq,
    ;
}

/// `r` is the integer square root of `n`.
pub open spec fn is_sqrt(n: int, r: int) -> bool {
    0 <= r && r * r <= n && n < (r + 1) * (r + 1)
}

/// The integer square root as a function, for use in contracts.
pub open spec fn spec_isqrt(n: int) -> int {
    choose|r: int| is_sqrt(n, r)
}

/// Every non-negative integer has an integer square root, and `spec_isqrt`
/// denotes it.
pub proof fn lemma_isqrt_exists(n: int)
    requires
        n >= 0,
    ensures
        is_sqrt(n, spec_isqrt(n)),
    decreases n,
{
    if n == 0 {
        assert(is_sqrt(0, 0));
    } else {
        lemma_isqrt_exists(n - 1);
        let r0 = spec_isqrt(n - 1);
        if n < (r0 + 1) * (r0 + 1) {
            assert(is_sqrt(n, r0));
        } else {
            assert(is_sqrt(n, r0 + 1)) by (nonlinear_arith)
                requires
                    is_sqrt(n - 1, r0),
                    n >= (r0 + 1) * (r0 + 1),
            ;
        }
    }
    assert(exists|r: int| is_sqrt(n, r));
}

/// The integer square root is unique.
pub proof fn lemma_isqrt_unique(n: int, r1: int, r2: int)
    by (nonlinear_arith)
    requires
        is_sqrt(n, r1),
        is_sqrt(n, r2),
    ensures
        r1 == r2,
{
}

/// Integer square root of a `u128`, by binary search on the value.
pub fn isqrt_u128(n: u128) -> (r: u64)
    ensures
        is_sqrt(n as int, r as int),
        r == spec_isqrt(n as int),
{
    let mut lo: u128 = 0;
    let mut hi: u128 = 0x1_0000_0000_0000_0000u128;
    proof {
        assert((hi as int) * (hi as int) > n) by (nonlinear_arith)
            requires
                hi == 0x1_0000_0000_0000_0000u128,
                n <= 0xffff_ffff_ffff_ffff_ffff_ffff_ffff_ffffu128,
        ;
    }
    while hi - lo > 1
        invariant
            0 <= lo < hi <= 0x1_0000_0000_0000_0000u128,
            (lo as int) * (lo as int) <= n as int,
            (n as int) < (hi as int) * (hi as int),
        decreases hi - lo,
    {
        let mid = lo + (hi - lo) / 2;
        proof {
            assert((mid as int) * (mid as int) < 0x1_0000_0000_0000_0000_0000_0000_0000_0000int)
                by (nonlinear_arith)
                requires
                    mid < 0x1_0000_0000_0000_0000u128,
            ;
        }
        if mid * mid <= n {
            lo = mid;
        } else {
            hi = mid;
        }
    }
    proof {
        lemma_isqrt_exists(n as int);
        lemma_isqrt_unique(n as int, lo as int, spec_isqrt(n as int));
    }
    lo as u64
}

} // verus!
