//! Fixed-point plane and space vectors, with mathematical views.

use vstd::prelude::*;
use crate::fixed::{
    div_trunc, fdiv, fmul, fx_ok, iabs, isqrt, lemma_fdiv_abs, lemma_fdiv_bounds,
    lemma_fmul_bound, mul_fx, sqrt_floor, Fx, FX_MAX, SCALE,
};

verus! {

/// Plane and space coordinates below this stay comfortably inside the
/// scalar band under one scaling product per tick.
pub const COORD_MAX: i64 = 1_000_000;

/// Mathematical view of a plane vector.
pub ghost struct V2 {
    pub x: int,
    pub y: int,
}

/// Mathematical view of a space vector.
pub ghost struct V3 {
    pub x: int,
    pub y: int,
    pub z: int,
}

/// A fixed-point plane vector.
#[derive(Clone, Copy, PartialEq, Eq, Structural, Debug)]
pub struct Vec2Fx {
    pub x: Fx,
    pub y: Fx,
}

/// A fixed-point space vector.
#[derive(Clone, Copy, PartialEq, Eq, Structural, Debug)]
pub struct Vec3Fx {
    pub x: Fx,
    pub y: Fx,
    pub z: Fx,
}

impl View for Vec2Fx {
    type V = V2;

    open spec fn view(&self) -> V2 {
        V2 { x: self.x as int, y: self.y as int }
    }
}

impl View for Vec3Fx {
    type V = V3;

    open spec fn view(&self) -> V3 {
        V3 { x: self.x as int, y: self.y as int, z: self.z as int }
    }
}

pub open spec fn v2_zero() -> V2 {
    V2 { x: 0, y: 0 }
}

pub open spec fn v3_zero() -> V3 {
    V3 { x: 0, y: 0, z: 0 }
}

pub open spec fn v2_ok(v: V2) -> bool {
    fx_ok(v.x) && fx_ok(v.y)
}

pub open spec fn v3_ok(v: V3) -> bool {
    fx_ok(v.x) && fx_ok(v.y) && fx_ok(v.z)
}

/// Every coordinate at most `b` in magnitude.
pub open spec fn v2_below(v: V2, b: int) -> bool {
    iabs(v.x) <= b && iabs(v.y) <= b
}

/// Every coordinate at most `b` in magnitude.
pub open spec fn v3_below(v: V3, b: int) -> bool {
    iabs(v.x) <= b && iabs(v.y) <= b && iabs(v.z) <= b
}

pub open spec fn v2_sum(a: V2, b: V2) -> V2 {
    V2 { x: a.x + b.x, y: a.y + b.y }
}

pub open spec fn v3_sum(a: V3, b: V3) -> V3 {
    V3 { x: a.x + b.x, y: a.y + b.y, z: a.z + b.z }
}

/// Scale a space vector by a fixed-point factor, coordinate-wise.
pub open spec fn v3_scale(k: int, v: V3) -> V3 {
    V3 { x: fmul(k, v.x), y: fmul(k, v.y), z: fmul(k, v.z) }
}

/// The vector with its vertical coordinate zeroed.
pub open spec fn v3_flat(v: V3) -> V3 {
    V3 { x: v.x, y: 0, z: v.z }
}

/// Coordinate-wise negation.
pub open spec fn v3_neg(v: V3) -> V3 {
    V3 { x: -v.x, y: -v.y, z: -v.z }
}

/// Linear interpolation from `a` toward `b` by the fixed-point factor
/// `t`, coordinate-wise, without clamping `t`.
pub open spec fn v3_lerp(a: V3, b: V3, t: int) -> V3 {
    V3 {
        x: a.x + fmul(t, b.x - a.x),
        y: a.y + fmul(t, b.y - a.y),
        z: a.z + fmul(t, b.z - a.z),
    }
}

/// Squared length, in squared fixed-point steps.
pub open spec fn v3_len2(v: V3) -> int {
    v.x * v.x + v.y * v.y + v.z * v.z
}

/// The unit vector along `v` (or zero for the zero vector): each
/// coordinate is `c * SCALE / len`, truncated toward zero, with `len`
/// the rounded-down square root of the squared length.
pub open spec fn v3_unit_or_zero(v: V3) -> V3 {
    if v3_len2(v) == 0 {
        v3_zero()
    } else {
        let len = sqrt_floor(v3_len2(v));
        V3 { x: fdiv(v.x * SCALE, len), y: fdiv(v.y * SCALE, len), z: fdiv(v.z * SCALE, len) }
    }
}

impl Vec2Fx {
    pub fn new(x: Fx, y: Fx) -> (r: Vec2Fx)
        ensures
            r@ == (V2 { x: x as int, y: y as int }),
    {
        Vec2Fx { x, y }
    }

    pub fn zero() -> (r: Vec2Fx)
        ensures
            r@ == v2_zero(),
    {
        Vec2Fx { x: 0, y: 0 }
    }

    pub fn plus(self, other: Vec2Fx) -> (r: Vec2Fx)
        requires
            v2_ok(self@),
            v2_ok(other@),
        ensures
            r@ == v2_sum(self@, other@),
    {
        Vec2Fx { x: self.x + other.x, y: self.y + other.y }
    }

    /// Whether both coordinates are zero.
    pub fn is_zero(self) -> (r: bool)
        ensures
            r == (self@ == v2_zero()),
    {
        self.x == 0 && self.y == 0
    }
}

impl Vec3Fx {
    pub fn new(x: Fx, y: Fx, z: Fx) -> (r: Vec3Fx)
        ensures
            r@ == (V3 { x: x as int, y: y as int, z: z as int }),
    {
        Vec3Fx { x, y, z }
    }

    pub fn zero() -> (r: Vec3Fx)
        ensures
            r@ == v3_zero(),
    {
        Vec3Fx { x: 0, y: 0, z: 0 }
    }

    pub fn plus(self, other: Vec3Fx) -> (r: Vec3Fx)
        requires
            v3_ok(self@),
            v3_ok(other@),
        ensures
            r@ == v3_sum(self@, other@),
    {
        Vec3Fx { x: self.x + other.x, y: self.y + other.y, z: self.z + other.z }
    }

    /// Scale by a fixed-point factor.
    pub fn scaled(self, k: Fx) -> (r: Vec3Fx)
        requires
            fx_ok(k as int),
            v3_ok(self@),
        ensures
            r@ == v3_scale(k as int, self@),
            v3_below(self@, COORD_MAX as int) && iabs(k as int) <= COORD_MAX as int ==> v3_ok(r@),
    {
        let r = Vec3Fx {
            x: mul_fx(k, self.x),
            y: mul_fx(k, self.y),
            z: mul_fx(k, self.z),
        };
        proof {
            if v3_below(self@, COORD_MAX as int) && iabs(k as int) <= COORD_MAX as int {
                lemma_fmul_bound(k as int, self@.x, COORD_MAX as int, COORD_MAX as int);
                lemma_fmul_bound(k as int, self@.y, COORD_MAX as int, COORD_MAX as int);
                lemma_fmul_bound(k as int, self@.z, COORD_MAX as int, COORD_MAX as int);
            }
        }
        r
    }

    /// Zero the vertical coordinate.
    pub fn flattened(self) -> (r: Vec3Fx)
        ensures
            r@ == v3_flat(self@),
    {
        Vec3Fx { x: self.x, y: 0, z: self.z }
    }

    /// Coordinate-wise negation.
    pub fn negated(self) -> (r: Vec3Fx)
        requires
            v3_ok(self@),
        ensures
            r@ == v3_neg(self@),
    {
        Vec3Fx { x: -self.x, y: -self.y, z: -self.z }
    }

    /// Whether all coordinates are zero.
    pub fn is_zero(self) -> (r: bool)
        ensures
            r == (self@ == v3_zero()),
    {
        self.x == 0 && self.y == 0 && self.z == 0
    }

    /// Move this vector toward `target` by the interpolation factor `t`.
    pub fn lerp_toward(self, target: Vec3Fx, t: Fx) -> (r: Vec3Fx)
        requires
            v3_below(self@, SCALE as int),
            v3_below(target@, SCALE as int),
            0 <= t <= COORD_MAX,
        ensures
            r@ == v3_lerp(self@, target@, t as int),
            v3_ok(r@),
    {
        proof {
            lemma_fmul_bound(t as int, target@.x - self@.x, COORD_MAX as int, 2 * SCALE as int);
            lemma_fmul_bound(t as int, target@.y - self@.y, COORD_MAX as int, 2 * SCALE as int);
            lemma_fmul_bound(t as int, target@.z - self@.z, COORD_MAX as int, 2 * SCALE as int);
        }
        Vec3Fx {
            x: self.x + mul_fx(t, target.x - self.x),
            y: self.y + mul_fx(t, target.y - self.y),
            z: self.z + mul_fx(t, target.z - self.z),
        }
    }

    /// The unit vector along `self`, or zero for the zero vector.
    pub fn unit_or_zero(self) -> (r: Vec3Fx)
        requires
            v3_ok(self@),
        ensures
            r@ == v3_unit_or_zero(self@),
            v3_below(r@, SCALE as int),
            self@ == v3_zero() <==> r@ == v3_zero(),
    {
        proof {
            assert(self@.x * self@.x <= FX_MAX * FX_MAX && self@.y * self@.y <= FX_MAX * FX_MAX
                && self@.z * self@.z <= FX_MAX * FX_MAX && self@.x * self@.x >= 0 && self@.y
                * self@.y >= 0 && self@.z * self@.z >= 0) by (nonlinear_arith)
                requires
                    v3_ok(self@),
            ;
        }
        let len2: i64 = self.x * self.x + self.y * self.y + self.z * self.z;
        if len2 == 0 {
            proof {
                assert(self@.x == 0 && self@.y == 0 && self@.z == 0) by (nonlinear_arith)
                    requires
                        self@.x * self@.x + self@.y * self@.y + self@.z * self@.z == 0,
                ;
            }
            Vec3Fx { x: 0, y: 0, z: 0 }
        } else {
            let len: i64 = isqrt(len2);
            proof {
                assert(len >= 1) by (nonlinear_arith)
                    requires
                        len >= 0 && len * len <= len2 as int && len2 >= 1 && len2 < (len + 1) * (
                        len + 1),
                ;
                lemma_unit_coord(self@.x, len2 as int, len as int);
                lemma_unit_coord(self@.y, len2 as int, len as int);
                lemma_unit_coord(self@.z, len2 as int, len as int);
                assert(self@ != v3_zero()) by (nonlinear_arith)
                    requires
                        self@.x * self@.x + self@.y * self@.y + self@.z * self@.z >= 1,
                ;
            }
            let r = Vec3Fx {
                x: div_trunc(self.x * SCALE, len),
                y: div_trunc(self.y * SCALE, len),
                z: div_trunc(self.z * SCALE, len),
            };
            proof {
                lemma_unit_nonzero(self@.x, self@.y, self@.z, len as int);
            }
            r
        }
    }
}

/// A nonzero vector keeps at least one nonzero coordinate after being
/// divided by its rounded-down length and scaled up.
proof fn lemma_unit_nonzero(x: int, y: int, z: int, len: int)
    requires
        x * x + y * y + z * z >= 1,
        len >= 1,
        len * len <= x * x + y * y + z * z,
    ensures
        iabs(fdiv(x * SCALE, len)) >= 1 || iabs(fdiv(y * SCALE, len)) >= 1 || iabs(
            fdiv(z * SCALE, len),
        ) >= 1,
{
    lemma_fdiv_abs(x * SCALE, len);
    lemma_fdiv_abs(y * SCALE, len);
    lemma_fdiv_abs(z * SCALE, len);
    assert(iabs(x * SCALE) == iabs(x) * SCALE && iabs(y * SCALE) == iabs(y) * SCALE && iabs(
        z * SCALE,
    ) == iabs(z) * SCALE) by (nonlinear_arith)
        requires
            SCALE == 1000,
    ;
    if iabs(x) >= iabs(y) && iabs(x) >= iabs(z) {
        assert(len <= 2 * iabs(x)) by (nonlinear_arith)
            requires
                len >= 1 && len * len <= x * x + y * y + z * z && iabs(x) >= iabs(y) && iabs(x)
                    >= iabs(z),
        ;
        assert((iabs(x) * SCALE) / len >= 1) by (nonlinear_arith)
            requires
                len >= 1 && len <= 2 * iabs(x) && SCALE == 1000,
        ;
    } else if iabs(y) >= iabs(z) {
        assert(len <= 2 * iabs(y)) by (nonlinear_arith)
            requires
                len >= 1 && len * len <= x * x + y * y + z * z && iabs(y) >= iabs(x) && iabs(y)
                    >= iabs(z),
        ;
        assert((iabs(y) * SCALE) / len >= 1) by (nonlinear_arith)
            requires
                len >= 1 && len <= 2 * iabs(y) && SCALE == 1000,
        ;
    } else {
        assert(len <= 2 * iabs(z)) by (nonlinear_arith)
            requires
                len >= 1 && len * len <= x * x + y * y + z * z && iabs(z) >= iabs(x) && iabs(z)
                    >= iabs(y),
        ;
        assert((iabs(z) * SCALE) / len >= 1) by (nonlinear_arith)
            requires
                len >= 1 && len <= 2 * iabs(z) && SCALE == 1000,
        ;
    }
}

/// A coordinate of a vector, divided by the vector's rounded-down length
/// and scaled up, stays within one unit.
proof fn lemma_unit_coord(c: int, len2: int, len: int)
    requires
        c * c <= len2,
        len >= 1,
        len2 < (len + 1) * (len + 1),
    ensures
        iabs(fdiv(c * SCALE, len)) <= SCALE,
{
    assert(iabs(c) <= len) by (nonlinear_arith)
        requires
            c * c <= len2 && len >= 1 && len2 < (len + 1) * (len + 1),
    ;
    assert(iabs(c * SCALE) <= len * SCALE) by (nonlinear_arith)
        requires
            iabs(c) <= len && SCALE == 1000,
    ;
    if c >= 0 {
        assert((c * SCALE) / len <= SCALE) by (nonlinear_arith)
            requires
                0 <= c * SCALE <= len * SCALE && len >= 1 && SCALE == 1000,
        ;
        lemma_fdiv_bounds(c * SCALE, len);
    } else {
        assert(((-c) * SCALE) / len <= SCALE) by (nonlinear_arith)
            requires
                0 <= (-c) * SCALE <= len * SCALE && len >= 1 && SCALE == 1000,
        ;
        assert((-c) * SCALE == -(c * SCALE)) by (nonlinear_arith);
        lemma_fdiv_bounds(c * SCALE, len);
    }
}

} // verus!
