//! Fixed-point scalars: an `i64` holding thousandths of a world unit,
//! radian or second.

use vstd::prelude::*;

verus! {

/// Number of fixed-point steps per whole unit.
pub const SCALE: i64 = 1000;

/// Fixed-point scalars of this library stay inside this band; it is wide
/// enough for every quantity of the demo (positions, impulses, angles,
/// speeds) and small enough that a product of two in-band values fits
/// in `i64`.
pub const FX_MAX: i64 = 1_000_000_000;

/// Half a turn, in fixed-point radians.
pub const PI_FX: i64 = 3142;

/// A quarter turn, in fixed-point radians.
pub const HALF_PI_FX: i64 = 1571;

/// A full turn, in fixed-point radians.
pub const TWO_PI_FX: i64 = 6284;

/// A fixed-point scalar: thousandths of a world unit, radian or second.
pub type Fx = i64;

/// An in-band fixed-point value.
pub open spec fn fx_ok(v: int) -> bool {
    -FX_MAX <= v <= FX_MAX
}

/// Mathematical absolute value.
pub open spec fn iabs(a: int) -> int {
    if a >= 0 {
        a
    } else {
        -a
    }
}

/// Truncating (round-toward-zero) division, the semantics of `/` on `i64`.
pub open spec fn fdiv(n: int, d: int) -> int
    recommends
        d > 0,
{
    if n >= 0 {
        n / d
    } else {
        -((-n) / d)
    }
}

/// Fixed-point product: `(a * b) / SCALE`, truncated toward zero.
pub open spec fn fmul(a: int, b: int) -> int {
    fdiv(a * b, SCALE as int)
}

/// Clamping into `[lo, hi]`.
pub open spec fn fclamp(v: int, lo: int, hi: int) -> int
    recommends
        lo <= hi,
{
    if v < lo {
        lo
    } else if v > hi {
        hi
    } else {
        v
    }
}

/// Truncating division never grows the magnitude of the dividend.
pub proof fn lemma_fdiv_bounds(n: int, d: int)
    requires
        d > 0,
    ensures
        iabs(fdiv(n, d)) <= iabs(n),
        n >= 0 ==> 0 <= fdiv(n, d) <= n,
        n < 0 ==> n <= fdiv(n, d) <= 0,
        d > 1 && n > 0 ==> fdiv(n, d) < n,
{
    if n >= 0 {
        assert(0 <= n / d <= n) by (nonlinear_arith)
            requires
                n >= 0 && d > 0,
        ;
        if d > 1 && n > 0 {
            assert(n / d < n) by (nonlinear_arith)
                requires
                    n > 0 && d > 1,
            ;
        }
    } else {
        assert(0 <= (-n) / d <= -n) by (nonlinear_arith)
            requires
                -n > 0 && d > 0,
        ;
    }
}

/// The magnitude of a fixed-point product is bounded by the product of the
/// factor magnitudes, scaled down.
pub proof fn lemma_fmul_bound(a: int, b: int, m: int, k: int)
    requires
        iabs(a) <= m,
        iabs(b) <= k,
        0 <= m,
        0 <= k,
    ensures
        iabs(fmul(a, b)) <= fdiv(m * k, SCALE as int),
{
    assert(iabs(a * b) <= m * k) by (nonlinear_arith)
        requires
            iabs(a) <= m && iabs(b) <= k && 0 <= m && 0 <= k,
    ;
    lemma_fdiv_bounds(a * b, SCALE as int);
    if a * b >= 0 {
        assert((a * b) / 1000 <= (m * k) / 1000) by (nonlinear_arith)
            requires
                0 <= a * b <= m * k,
        ;
    } else {
        assert((-(a * b)) / 1000 <= (m * k) / 1000) by (nonlinear_arith)
            requires
                0 < -(a * b) <= m * k,
        ;
    }
}

/// Truncating division commutes with the absolute value.
pub proof fn lemma_fdiv_abs(n: int, d: int)
    requires
        d > 0,
    ensures
        iabs(fdiv(n, d)) == fdiv(iabs(n), d),
{
    lemma_fdiv_bounds(n, d);
    if n < 0 {
        assert((-n) / d >= 0) by (nonlinear_arith)
            requires
                -n > 0 && d > 0,
        ;
    }
}

/// A truncated quotient shrinks with the divisor: a bound on the dividend
/// and a floor under the divisor bound the quotient.
pub proof fn lemma_fdiv_shrink(n: int, d: int, nb: int, dmin: int)
    requires
        d >= dmin >= 1,
        iabs(n) <= nb,
    ensures
        iabs(fdiv(n, d)) <= nb / dmin,
{
    lemma_fdiv_abs(n, d);
    vstd::arithmetic::div_mod::lemma_div_is_ordered_by_denominator(iabs(n), dmin, d);
    vstd::arithmetic::div_mod::lemma_div_is_ordered(iabs(n), nb, dmin);
}

/// Truncating division of a value by a positive divisor.
pub fn div_trunc(n: i64, d: i64) -> (r: i64)
    requires
        d > 0,
        n > i64::MIN,
    ensures
        r == fdiv(n as int, d as int),
        iabs(r as int) <= iabs(n as int),
{
    proof {
        lemma_fdiv_bounds(n as int, d as int);
    }
    n / d
}

/// Fixed-point product of two in-band values.
pub fn mul_fx(a: i64, b: i64) -> (r: i64)
    requires
        fx_ok(a as int),
        fx_ok(b as int),
    ensures
        r == fmul(a as int, b as int),
        iabs(r as int) <= fdiv(iabs(a as int) * iabs(b as int), SCALE as int),
{
    proof {
        assert(iabs(a as int * b as int) <= FX_MAX * FX_MAX) by (nonlinear_arith)
            requires
                fx_ok(a as int) && fx_ok(b as int),
        ;
        lemma_fmul_bound(a as int, b as int, iabs(a as int), iabs(b as int));
    }
    let p: i64 = a * b;
    div_trunc(p, SCALE)
}

/// Clamp a value into `[lo, hi]`.
pub fn clamp_fx(v: i64, lo: i64, hi: i64) -> (r: i64)
    requires
        lo <= hi,
    ensures
        r == fclamp(v as int, lo as int, hi as int),
        lo <= r <= hi,
{
    if v < lo {
        lo
    } else if v > hi {
        hi
    } else {
        v
    }
}

/// `r` is the square root of `n`, rounded down.
pub open spec fn is_sqrt_floor(n: int, r: int) -> bool {
    0 <= r && r * r <= n < (r + 1) * (r + 1)
}

/// The square root rounded down, as a value.
pub open spec fn sqrt_floor(n: int) -> int
    recommends
        n >= 0,
{
    choose|r: int| is_sqrt_floor(n, r)
}

/// At most one value is the rounded-down square root.
pub proof fn lemma_sqrt_floor_unique(n: int, r: int)
    requires
        is_sqrt_floor(n, r),
    ensures
        sqrt_floor(n) == r,
{
    assert(is_sqrt_floor(n, sqrt_floor(n)));
    let s = sqrt_floor(n);
    if s < r {
        assert((s + 1) * (s + 1) <= r * r) by (nonlinear_arith)
            requires
                0 <= s && s + 1 <= r,
        ;
    }
    if r < s {
        assert((r + 1) * (r + 1) <= s * s) by (nonlinear_arith)
            requires
                0 <= r && r + 1 <= s,
        ;
    }
}

/// Integer square root, rounded down.
pub fn isqrt(n: i64) -> (r: i64)
    requires
        0 <= n <= 3_000_000_000_000_000_000,
    ensures
        0 <= r,
        r * r <= n,
        n < (r + 1) * (r + 1),
        r == sqrt_floor(n as int),
{
    let mut lo: i64 = 0;
    let mut hi: i64 = if n < 3_036_999_999 {
        n + 1
    } else {
        3_037_000_000
    };
    proof {
        if n < 3_036_999_999 {
            assert(n < (n + 1) * (n + 1)) by (nonlinear_arith)
                requires
                    n >= 0,
            ;
        } else {
            assert(n < 3_037_000_000i64 * 3_037_000_000i64);
        }
    }
    while hi - lo > 1
        invariant
            0 <= lo < hi <= 3_037_000_000,
            lo * lo <= n,
            n < hi * hi,
        decreases hi - lo,
    {
        let mid: i64 = lo + (hi - lo) / 2;
        proof {
            assert(mid * mid <= 3_037_000_000i64 * 3_037_000_000i64) by (nonlinear_arith)
                requires
                    0 <= mid <= 3_037_000_000i64,
            ;
        }
        if mid * mid <= n {
            lo = mid;
        } else {
            hi = mid;
        }
    }
    proof {
        lemma_sqrt_floor_unique(n as int, lo as int);
    }
    lo
}

/// Measure showing that repeated shifting by a full turn terminates.
pub open spec fn wrap_measure(a: int) -> int {
    iabs(a) + if a <= -PI_FX {
        1int
    } else {
        0int
    }
}

/// The representative of an angle in the half-open band `(-PI_FX, PI_FX]`.
pub open spec fn wrap_angle_spec(a: int) -> int
    decreases wrap_measure(a),
{
    if a > PI_FX {
        wrap_angle_spec(a - TWO_PI_FX)
    } else if a <= -PI_FX {
        wrap_angle_spec(a + TWO_PI_FX)
    } else {
        a
    }
}

/// The wrapped angle indeed lies in the band.
pub proof fn lemma_wrap_angle_in_band(a: int)
    ensures
        -PI_FX < wrap_angle_spec(a) <= PI_FX,
    decreases wrap_measure(a),
{
    if a > PI_FX {
        lemma_wrap_angle_in_band(a - TWO_PI_FX);
    } else if a <= -PI_FX {
        lemma_wrap_angle_in_band(a + TWO_PI_FX);
    }
}

/// Shift an angle into the band `(-PI_FX, PI_FX]`.
pub fn wrap_angle(a: i64) -> (r: i64)
    requires
        fx_ok(a as int),
    ensures
        r == wrap_angle_spec(a as int),
        -PI_FX < r <= PI_FX,
{
    proof {
        lemma_wrap_angle_in_band(a as int);
    }
    let mut w: i64 = a;
    while w > PI_FX
        invariant
            wrap_angle_spec(w as int) == wrap_angle_spec(a as int),
            -FX_MAX <= w,
        decreases w + TWO_PI_FX,
    {
        w = w - TWO_PI_FX;
    }
    while w <= -PI_FX
        invariant
            wrap_angle_spec(w as int) == wrap_angle_spec(a as int),
            w <= PI_FX,
            -FX_MAX - TWO_PI_FX <= w,
        decreases TWO_PI_FX - w,
    {
        w = w + TWO_PI_FX;
    }
    w
}

/// Sine on the band `(-PI_FX, PI_FX]`: the symmetric parabola
/// `4 a (PI_FX - a) * SCALE / PI_FX^2` on the nonnegative half,
/// extended as an odd function. Exact at 0, at the quarter turn
/// and at the half turn.
pub open spec fn sin_fx_spec(a: int) -> int
    recommends
        -PI_FX < a <= PI_FX,
{
    if a >= 0 {
        fdiv(4 * a * (PI_FX - a) * SCALE, PI_FX * PI_FX)
    } else {
        -fdiv(4 * (-a) * (PI_FX - (-a)) * SCALE, PI_FX * PI_FX)
    }
}

/// Cosine, as the sine shifted by a quarter turn.
pub open spec fn cos_fx_spec(a: int) -> int
    recommends
        -PI_FX < a <= PI_FX,
{
    sin_fx_spec(wrap_angle_spec(a + HALF_PI_FX))
}

/// The parabola stays within one unit on the nonnegative half band,
/// and is strictly positive strictly inside it.
proof fn lemma_sin_parabola_bounds(a: int)
    requires
        0 <= a <= PI_FX,
    ensures
        0 <= fdiv(4 * a * (PI_FX - a) * SCALE, PI_FX * PI_FX) <= SCALE,
        1 <= a <= PI_FX - 1 ==> fdiv(4 * a * (PI_FX - a) * SCALE, PI_FX * PI_FX) >= 1,
{
    assert(0 <= 4 * a * (PI_FX - a) * SCALE <= PI_FX * PI_FX * SCALE) by (nonlinear_arith)
        requires
            0 <= a <= PI_FX && SCALE == 1000 && PI_FX == 3142,
    ;
    assert(fdiv(4 * a * (PI_FX - a) * SCALE, PI_FX * PI_FX) == (4 * a * (PI_FX - a) * SCALE) / (
    PI_FX * PI_FX));
    assert((4 * a * (PI_FX - a) * SCALE) / (PI_FX * PI_FX) <= SCALE) by (nonlinear_arith)
        requires
            0 <= 4 * a * (PI_FX - a) * SCALE <= PI_FX * PI_FX * SCALE && SCALE == 1000 && PI_FX
                == 3142,
    ;
    assert((4 * a * (PI_FX - a) * SCALE) / (PI_FX * PI_FX) >= 0) by (nonlinear_arith)
        requires
            0 <= 4 * a * (PI_FX - a) * SCALE && PI_FX == 3142,
    ;
    if 1 <= a <= PI_FX - 1 {
        assert(4 * a * (PI_FX - a) * SCALE >= PI_FX * PI_FX) by (nonlinear_arith)
            requires
                1 <= a <= PI_FX - 1 && SCALE == 1000 && PI_FX == 3142,
        ;
        assert((4 * a * (PI_FX - a) * SCALE) / (PI_FX * PI_FX) >= 1) by (nonlinear_arith)
            requires
                4 * a * (PI_FX - a) * SCALE >= PI_FX * PI_FX && PI_FX == 3142,
        ;
    }
}

/// The sine approximation stays within one unit and is odd-symmetric.
pub proof fn lemma_sin_fx_bounds(a: int)
    requires
        -PI_FX < a <= PI_FX,
    ensures
        -SCALE <= sin_fx_spec(a) <= SCALE,
        1 <= a <= PI_FX - 1 ==> sin_fx_spec(a) >= 1,
        -(PI_FX - 1) <= a <= -1 ==> sin_fx_spec(a) <= -1,
{
    if a >= 0 {
        lemma_sin_parabola_bounds(a);
    } else {
        lemma_sin_parabola_bounds(-a);
    }
}

/// A cosine strictly inside the open quarter-turn band is strictly positive.
pub proof fn lemma_cos_fx_positive(a: int)
    requires
        -HALF_PI_FX < a < HALF_PI_FX,
    ensures
        cos_fx_spec(a) >= 1,
{
    let s = a + HALF_PI_FX;
    assert(0 < s < PI_FX);
    assert(wrap_angle_spec(s) == s);
    lemma_sin_parabola_bounds(s);
}

/// Sine of an angle, after wrapping it into the principal band.
pub fn sin_fx(a: i64) -> (r: i64)
    requires
        fx_ok(a as int),
    ensures
        r == sin_fx_spec(wrap_angle_spec(a as int)),
        -SCALE <= r <= SCALE,
{
    let w: i64 = wrap_angle(a);
    proof {
        lemma_sin_fx_bounds(w as int);
        if w >= 0 {
            lemma_sin_parabola_bounds(w as int);
        } else {
            lemma_sin_parabola_bounds(-(w as int));
        }
    }
    if w >= 0 {
        proof {
            assert(0 <= 4 * (w as int) * (PI_FX - w as int) <= PI_FX * PI_FX) by (nonlinear_arith)
                requires
                    0 <= w as int <= PI_FX && PI_FX == 3142,
            ;
        }
        let q: i64 = 4 * w * (PI_FX - w);
        let p: i64 = q * SCALE;
        div_trunc(p, PI_FX * PI_FX)
    } else {
        let m: i64 = -w;
        proof {
            assert(0 <= 4 * (m as int) * (PI_FX - m as int) <= PI_FX * PI_FX) by (nonlinear_arith)
                requires
                    0 <= m as int <= PI_FX && PI_FX == 3142,
            ;
        }
        let q: i64 = 4 * m * (PI_FX - m);
        let p: i64 = q * SCALE;
        -div_trunc(p, PI_FX * PI_FX)
    }
}

/// Cosine of an angle, after wrapping it into the principal band.
pub fn cos_fx(a: i64) -> (r: i64)
    requires
        fx_ok(a as int),
        -FX_MAX <= a + HALF_PI_FX <= FX_MAX,
    ensures
        r == cos_fx_spec(wrap_angle_spec(a as int)),
        -SCALE <= r <= SCALE,
{
    proof {
        lemma_wrap_angle_shift(a as int);
        lemma_wrap_angle_in_band(a as int);
    }
    sin_fx(a + HALF_PI_FX)
}

/// Wrapping commutes with a quarter-turn shift.
proof fn lemma_wrap_angle_shift(a: int)
    ensures
        wrap_angle_spec(a + HALF_PI_FX) == wrap_angle_spec(wrap_angle_spec(a) + HALF_PI_FX),
    decreases wrap_measure(a),
{
    if a > PI_FX {
        lemma_wrap_angle_shift(a - TWO_PI_FX);
        lemma_wrap_unroll_up(a + HALF_PI_FX);
    } else if a <= -PI_FX {
        lemma_wrap_angle_shift(a + TWO_PI_FX);
        lemma_wrap_unroll_down(a + HALF_PI_FX);
    }
}

/// One upward unrolling step of the wrap.
proof fn lemma_wrap_unroll_up(b: int)
    requires
        b > -PI_FX,
    ensures
        wrap_angle_spec(b) == wrap_angle_spec(b - TWO_PI_FX),
{
    if b <= PI_FX {
        assert(b - TWO_PI_FX <= -PI_FX);
        assert(wrap_angle_spec(b - TWO_PI_FX) == wrap_angle_spec(b));
    }
}

/// One downward unrolling step of the wrap.
proof fn lemma_wrap_unroll_down(b: int)
    requires
        b <= PI_FX,
    ensures
        wrap_angle_spec(b) == wrap_angle_spec(b + TWO_PI_FX),
{
    if b > -PI_FX {
        assert(b + TWO_PI_FX > PI_FX);
        assert(wrap_angle_spec(b + TWO_PI_FX) == wrap_angle_spec(b));
    }
}

} // verus!
