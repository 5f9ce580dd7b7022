//! Fixed-point scalars, 2D vectors, and the rational simulation timestep.
//!
//! A world-space quantity (position, velocity, size) is an `i64` holding
//! `SCALE` ticks per world unit. Products and quotients truncate toward zero,
//! the way the hardware rounds; the spec functions below pin that rounding
//! down exactly so that every contract in the crate can speak of it.

use vstd::prelude::*;

verus! {

use vstd::math::abs;

/// Fixed-point ticks per world unit.
pub const SCALE: i64 = 1_000_000;

/// Magnitude bound on the fixed-point scalars the simulation works with
/// (about a million world units). Chosen so that a scalar times a timestep
/// numerator or denominator stays well inside `i64`.
pub const FX_LIMIT: i64 = 0x100_0000_0000;

/// Bound on a timestep's numerator and denominator.
pub const DT_LIMIT: u64 = 0x1_0000;

/// A fixed-point scalar is in the simulation's working range.
pub open spec fn fx_ok(a: int) -> bool {
    -FX_LIMIT <= a <= FX_LIMIT
}

/// Integer division truncating toward zero (the rounding of `i64` division),
/// defined for positive divisors.
pub open spec fn div_trunc(a: int, b: int) -> int
    recommends
        b > 0,
{
    if a >= 0 {
        a / b
    } else {
        -((-a) / b)
    }
}

/// `a * num / den`, truncated toward zero: how a scalar is scaled by a
/// rational factor such as the timestep.
pub open spec fn mul_frac(a: int, num: int, den: int) -> int
    recommends
        den > 0,
        num >= 0,
{
    div_trunc(a * num, den)
}

/// Truncating division of an `i64` by a positive divisor.
pub fn div_trunc_i64(a: i64, b: i64) -> (q: i64)
    requires
        b > 0,
        a != i64::MIN,
    ensures
        q == div_trunc(a as int, b as int),
        a >= 0 ==> 0 <= q <= a,
        a < 0 ==> a <= q <= 0,
{
    if a >= 0 {
        proof {
            vstd::arithmetic::div_mod::lemma_div_nonincreasing(a as int, b as int);
        }
        let q64: u64 = (a as u64) / (b as u64);
        q64 as i64
    } else {
        proof {
            vstd::arithmetic::div_mod::lemma_div_nonincreasing(-(a as int), b as int);
        }
        let m: u64 = ((-a) as u64) / (b as u64);
        -(m as i64)
    }
}

/// Scale `a` by the rational factor `num / den`, truncating toward zero.
pub fn mul_frac_i64(a: i64, num: u64, den: u64) -> (r: i64)
    requires
        den > 0,
        a != i64::MIN,
        abs(a as int) * num <= i64::MAX,
    ensures
        r == mul_frac(a as int, num as int, den as int),
        a >= 0 ==> 0 <= r <= a * num,
        a < 0 ==> a * num <= r <= 0,
        abs(r as int) <= abs(a as int) * num,
{
    if a >= 0 {
        proof {
            vstd::arithmetic::mul::lemma_mul_nonnegative(a as int, num as int);
        }
        let prod: u64 = (a as u64) * num;
        proof {
            vstd::arithmetic::div_mod::lemma_div_nonincreasing(prod as int, den as int);
        }
        let q: u64 = prod / den;
        q as i64
    } else {
        proof {
            vstd::arithmetic::mul::lemma_mul_nonnegative(-(a as int), num as int);
            assert(-(a as int) * (num as int) == -((a as int) * (num as int)))
                by (nonlinear_arith);
        }
        let prod: u64 = ((-a) as u64) * num;
        proof {
            vstd::arithmetic::div_mod::lemma_div_nonincreasing(prod as int, den as int);
        }
        let q: u64 = prod / den;
        -(q as i64)
    }
}

/// The fixed-point quotient of two scalars: `a / b` carried out at `SCALE`
/// precision, truncating toward zero.
pub open spec fn spec_fx_div(a: int, b: int) -> int
    recommends
        b > 0,
{
    div_trunc(a * SCALE, b)
}

/// Fixed-point division of `a` by a positive `b`.
pub fn fx_div(a: i64, b: i64) -> (r: i64)
    requires
        b > 0,
        fx_ok(a as int),
    ensures
        r == spec_fx_div(a as int, b as int),
        -(FX_LIMIT * SCALE) <= r <= FX_LIMIT * SCALE,
{
    proof {
        vstd::arithmetic::mul::lemma_mul_upper_bound(
            abs(a as int) as int,
            FX_LIMIT as int,
            SCALE as int,
            SCALE as int,
        );
        if a >= 0 {
            vstd::arithmetic::mul::lemma_mul_nonnegative(a as int, SCALE as int);
        } else {
            vstd::arithmetic::mul::lemma_mul_nonnegative(-(a as int), SCALE as int);
            assert(-(a as int) * (SCALE as int) == -((a as int) * (SCALE as int)))
                by (nonlinear_arith);
        }
    }
    let prod: i64 = a * SCALE;
    div_trunc_i64(prod, b)
}

/// The larger of two scalars.
pub fn max_i64(a: i64, b: i64) -> (m: i64)
    ensures
        m == if a >= b { a as int } else { b as int },
{
    if a >= b {
        a
    } else {
        b
    }
}

/// A world-space 2D vector in fixed-point ticks.
#[derive(Clone, Copy, Debug, PartialEq, Eq, Structural)]
pub struct Vec2 {
    pub x: i64,
    pub y: i64,
}

impl Vec2 {
    /// Both components are in the simulation's working range.
    pub open spec fn ok(self) -> bool {
        fx_ok(self.x as int) && fx_ok(self.y as int)
    }
}

/// The fixed simulation timestep, an exact rational number of seconds
/// (`num / den`), so that scaling by `dt` and dividing by `dt` are exact
/// integer operations rather than rounded decimals.
#[derive(Clone, Copy, Debug, PartialEq, Eq, Structural)]
pub struct Timestep {
    pub num: u64,
    pub den: u64,
}

impl Timestep {
    /// A usable timestep: positive denominator, both parts bounded so that
    /// products with working-range scalars fit in 64 bits.
    pub open spec fn wf(self) -> bool {
        0 < self.den <= DT_LIMIT && self.num <= DT_LIMIT
    }

    /// A zero timestep is degenerate: scaling by it gives zero and dividing
    /// by it is undefined, so velocity reconciliation skips it.
    pub open spec fn is_zero(self) -> bool {
        self.num == 0
    }

    /// `v * dt`: scale a per-second quantity down to one tick.
    pub open spec fn spec_scale(self, a: int) -> int {
        mul_frac(a, self.num as int, self.den as int)
    }

    /// `d / dt`: turn a per-tick displacement back into a per-second rate.
    pub open spec fn spec_unscale(self, a: int) -> int {
        mul_frac(a, self.den as int, self.num as int)
    }

    /// Scale a per-second scalar down to one tick.
    pub fn scale(&self, a: i64) -> (r: i64)
        requires
            self.wf(),
            fx_ok(a as int),
        ensures
            r == self.spec_scale(a as int),
            -(FX_LIMIT * DT_LIMIT) <= r <= FX_LIMIT * DT_LIMIT,
    {
        proof {
            vstd::arithmetic::mul::lemma_mul_upper_bound(
                abs(a as int) as int,
                FX_LIMIT as int,
                self.num as int,
                DT_LIMIT as int,
            );
        }
        mul_frac_i64(a, self.num, self.den)
    }

    /// The timestep's length in fixed-point seconds (what one tick drains
    /// from the real-time accumulator), positive for any non-zero timestep.
    pub fn seconds_fx(&self) -> (r: i64)
        requires
            self.wf(),
        ensures
            r == self.spec_scale(SCALE as int),
            !self.is_zero() ==> r > 0,
            0 <= r <= FX_LIMIT * DT_LIMIT,
    {
        proof {
            vstd::arithmetic::mul::lemma_mul_upper_bound(
                SCALE as int,
                FX_LIMIT as int,
                self.num as int,
                DT_LIMIT as int,
            );
            if self.num >= 1 {
                assert((SCALE as int) * (self.num as int) >= SCALE as int) by (nonlinear_arith)
                    requires
                        self.num >= 1,
                ;
                vstd::arithmetic::div_mod::lemma_div_non_zero(
                    (SCALE as int) * (self.num as int),
                    self.den as int,
                );
            }
        }
        mul_frac_i64(SCALE, self.num, self.den)
    }

    /// Divide a per-tick displacement by the timestep.
    pub fn unscale(&self, a: i64) -> (r: i64)
        requires
            self.wf(),
            !self.is_zero(),
            fx_ok(a as int),
        ensures
            r == self.spec_unscale(a as int),
            -(FX_LIMIT * DT_LIMIT) <= r <= FX_LIMIT * DT_LIMIT,
    {
        proof {
            vstd::arithmetic::mul::lemma_mul_upper_bound(
                abs(a as int) as int,
                FX_LIMIT as int,
                self.den as int,
                DT_LIMIT as int,
            );
        }
        mul_frac_i64(a, self.den, self.num)
    }
}

} // verus!
