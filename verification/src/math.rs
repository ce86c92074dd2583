//! Fixed-point plane vectors and the scaling arithmetic of the simulation.
//!
//! Components are `i64` milliunits. Scaling by a per-mille factor and the
//! per-tick division both truncate toward zero; the spec functions below are
//! the exact definition of that rounding.

use vstd::prelude::*;
use crate::constants::COORD_LIMIT;

verus! {

/// Truncating (round-toward-zero) division, defined for a positive divisor.
pub open spec fn div_trunc(a: int, b: int) -> int {
    if a >= 0 {
        a / b
    } else {
        -((-a) / b)
    }
}

/// `v` scaled by a per-mille factor `f`, truncated toward zero.
pub open spec fn scale_spec(v: int, f: int) -> int {
    div_trunc(v * f, 1000)
}

proof fn lemma_nonneg_div_bounds(a: int, b: int)
    requires
        a >= 0,
        b >= 1,
    ensures
        0 <= a / b <= a,
{
    vstd::arithmetic::div_mod::lemma_div_pos_is_pos(a, b);
    vstd::arithmetic::div_mod::lemma_div_is_ordered_by_denominator(a, 1, b);
    vstd::arithmetic::div_mod::lemma_div_basics(a);
}

/// Truncating division shrinks magnitudes and keeps signs.
pub proof fn lemma_div_trunc_bounds(a: int, b: int)
    requires
        b >= 1,
    ensures
        a >= 0 ==> 0 <= div_trunc(a, b) <= a,
        a <= 0 ==> a <= div_trunc(a, b) <= 0,
{
    if a >= 0 {
        lemma_nonneg_div_bounds(a, b);
    } else {
        lemma_nonneg_div_bounds(-a, b);
    }
}

/// Scaling by a factor of at most one per mille does not grow a magnitude.
pub proof fn lemma_scale_shrinks(v: int, f: int)
    requires
        0 <= f <= 1000,
    ensures
        v >= 0 ==> 0 <= scale_spec(v, f) <= v,
        v <= 0 ==> v <= scale_spec(v, f) <= 0,
    decreases if v >= 0 { 0int } else { 1int },
{
    if v >= 0 {
        vstd::arithmetic::mul::lemma_mul_nonnegative(v, f);
        vstd::arithmetic::mul::lemma_mul_inequality(f, 1000, v);
        vstd::arithmetic::mul::lemma_mul_is_commutative(f, v);
        vstd::arithmetic::mul::lemma_mul_is_commutative(1000, v);
        vstd::arithmetic::div_mod::lemma_div_is_ordered(v * f, v * 1000, 1000);
        vstd::arithmetic::div_mod::lemma_div_multiples_vanish(v, 1000);
        vstd::arithmetic::div_mod::lemma_div_pos_is_pos(v * f, 1000);
        assert(v * 1000 == 1000 * v);
    } else {
        lemma_scale_shrinks(-v, f);
        vstd::arithmetic::mul::lemma_mul_unary_negation(v, f);
        assert(div_trunc(v * f, 1000) == -div_trunc((-v) * f, 1000));
    }
}

/// Scaling by a factor of at most one per mille in magnitude cannot grow a
/// magnitude, whichever sign the factor has.
pub proof fn lemma_scale_magnitude(v: int, f: int)
    requires
        -1000 <= f <= 1000,
    ensures
        v >= 0 ==> -v <= scale_spec(v, f) <= v,
        v <= 0 ==> v <= scale_spec(v, f) <= -v,
{
    if f >= 0 {
        lemma_scale_shrinks(v, f);
    } else {
        lemma_scale_shrinks(v, -f);
        vstd::arithmetic::mul::lemma_mul_unary_negation(v, f);
        assert(div_trunc(v * f, 1000) == -div_trunc(v * (-f), 1000));
    }
}

/// Truncating division of `a` by a positive `b`.
pub fn div_trunc_i64(a: i64, b: i64) -> (r: i64)
    requires
        b >= 1,
        a > i64::MIN,
    ensures
        r == div_trunc(a as int, b as int),
        a >= 0 ==> 0 <= r <= a,
        a <= 0 ==> a <= r <= 0,
{
    proof {
        lemma_div_trunc_bounds(a as int, b as int);
    }
    if a >= 0 {
        let mag: u64 = a as u64;
        (mag / (b as u64)) as i64
    } else {
        let mag: u64 = (-a) as u64;
        -((mag / (b as u64)) as i64)
    }
}

/// `v` scaled by the per-mille factor `f`, truncated toward zero.
pub fn scale_milli(v: i64, f: i64) -> (r: i64)
    requires
        -COORD_LIMIT <= v <= COORD_LIMIT,
        -1_000_000 <= f <= 1_000_000,
    ensures
        r == scale_spec(v as int, f as int),
{
    proof {
        assert(-1_000_000_000_000_000_000 <= (v as int) * (f as int) <= 1_000_000_000_000_000_000)
            by (nonlinear_arith)
            requires
                -COORD_LIMIT <= v <= COORD_LIMIT,
                -1_000_000 <= f <= 1_000_000,
        ;
    }
    let prod: i64 = v * f;
    div_trunc_i64(prod, 1000)
}

/// A plane vector in milliunits.
#[derive(Clone, Copy, Debug, PartialEq, Eq, Structural)]
pub struct Vec2Fx {
    pub x: i64,
    pub y: i64,
}

impl Vec2Fx {
    /// Both components within the simulation's coordinate range.
    pub open spec fn in_range(self) -> bool {
        -COORD_LIMIT <= self.x <= COORD_LIMIT && -COORD_LIMIT <= self.y <= COORD_LIMIT
    }

    pub fn new(x: i64, y: i64) -> (r: Vec2Fx)
        ensures
            r.x == x,
            r.y == y,
    {
        Vec2Fx { x, y }
    }

    pub fn zero() -> (r: Vec2Fx)
        ensures
            r.x == 0,
            r.y == 0,
    {
        Vec2Fx { x: 0, y: 0 }
    }

    /// Component-wise sum.
    pub fn add(self, other: Vec2Fx) -> (r: Vec2Fx)
        requires
            -i64::MAX <= self.x + other.x <= i64::MAX,
            -i64::MAX <= self.y + other.y <= i64::MAX,
        ensures
            r.x == self.x + other.x,
            r.y == self.y + other.y,
    {
        Vec2Fx { x: self.x + other.x, y: self.y + other.y }
    }
}

/// `v` limited to `[lo, hi]`.
pub open spec fn clamped(v: int, lo: int, hi: int) -> int {
    if v < lo {
        lo
    } else if v > hi {
        hi
    } else {
        v
    }
}

/// `v` limited to `[lo, hi]`.
pub fn clamp_i64(v: i64, lo: i64, hi: i64) -> (r: i64)
    requires
        lo <= hi,
    ensures
        r == clamped(v as int, lo as int, hi as int),
        lo <= r <= hi,
{
    if v < lo {
        lo
    } else if v > hi {
        hi
    } else {
        v
    }
}

} // verus!
