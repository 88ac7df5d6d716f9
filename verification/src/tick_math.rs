//! Fixed-point tick / sqrt-price conversion.
//!
//! A tick `t` stands for the price `1.0001^t`, so the square root of the
//! price is `1.0001^(t/2) == sqrt(1.0001)^t`.  The conversion works in
//! Q64.64 fixed point (64 integer bits, 64 fractional bits) and is fully
//! deterministic: starting from `2^64` (the fixed-point `1`), it multiplies
//! once per tick by a constant per-tick ratio, rounding every intermediate
//! product toward zero (floor).  The same tick therefore yields the same
//! 128-bit result on every machine and in every process.
//!
//! On ticks so large that the fixed-point value no longer fits in 128 bits
//! the conversion reports `CalculationOverflow` instead of wrapping.

use vstd::prelude::*;
use vstd::arithmetic::div_mod::{
    lemma_div_is_ordered, lemma_div_multiples_vanish, lemma_div_pos_is_pos,
    lemma_fundamental_div_mod, lemma_hoist_over_denominator,
};
use vstd::math::abs;

use crate::errors::LiquidityManagerError;

verus! {

/// `1` in Q64.64 fixed point.
pub const Q64: u128 = 0x1_0000_0000_0000_0000;

/// `floor(sqrt(1.0001) * 2^64)`: the Q64.64 ratio between the sqrt-prices
/// of two adjacent ticks, used when walking upward.
pub const SQRT_RATIO_UP_Q64: u128 = 18447666387855959850;

/// `SQRT_RATIO_UP_Q64 - 2^64`: the fractional part of the upward ratio.
pub const SQRT_RATIO_UP_FRAC: u128 = 922314146408234;

/// `floor(2^64 / sqrt(1.0001))`: the Q64.64 ratio between the sqrt-prices
/// of two adjacent ticks, used when walking downward.
pub const SQRT_RATIO_DOWN_Q64: u128 = 18445821805675392311;

/// One upward tick step: multiply by the upward ratio and round toward zero.
pub open spec fn step_up_spec(x: int) -> int {
    (x * SQRT_RATIO_UP_Q64) / (Q64 as int)
}

/// One downward tick step: multiply by the downward ratio and round toward zero.
pub open spec fn step_down_spec(x: int) -> int {
    (x * SQRT_RATIO_DOWN_Q64) / (Q64 as int)
}

/// The Q64.64 sqrt-price of a tick, as an unbounded integer: `2^64` at tick
/// zero, one ratio step per tick away from zero, each step rounded toward
/// zero.
pub open spec fn sqrt_price_spec(tick: int) -> int
    decreases abs(tick),
{
    if tick == 0 {
        Q64 as int
    } else if tick > 0 {
        step_up_spec(sqrt_price_spec(tick - 1))
    } else {
        step_down_spec(sqrt_price_spec(tick + 1))
    }
}

/// What `tick_to_sqrt_price` returns: the fixed-point sqrt-price, or
/// `CalculationOverflow` where it no longer fits in 128 bits.
pub open spec fn spec_tick_to_sqrt_price(tick: int) -> Result<u128, LiquidityManagerError> {
    if sqrt_price_spec(tick) > u128::MAX {
        Err(LiquidityManagerError::CalculationOverflow)
    } else {
        Ok(sqrt_price_spec(tick) as u128)
    }
}

proof fn lemma_step_up_ge(x: int)
    requires
        x >= 0,
    ensures
        step_up_spec(x) >= x,
{
    lemma_div_is_ordered(x * (Q64 as int), x * (SQRT_RATIO_UP_Q64 as int), Q64 as int);
    lemma_div_multiples_vanish(x, Q64 as int);
}

proof fn lemma_step_down_le(x: int)
    requires
        x >= 0,
    ensures
        0 <= step_down_spec(x) <= x,
{
    lemma_div_is_ordered(x * (SQRT_RATIO_DOWN_Q64 as int), x * (Q64 as int), Q64 as int);
    lemma_div_multiples_vanish(x, Q64 as int);
    lemma_div_pos_is_pos(x * (SQRT_RATIO_DOWN_Q64 as int), Q64 as int);
}

proof fn lemma_sqrt_price_nonneg(tick: int)
    ensures
        sqrt_price_spec(tick) >= 0,
    decreases abs(tick),
{
    if tick > 0 {
        lemma_sqrt_price_nonneg(tick - 1);
        lemma_div_pos_is_pos(sqrt_price_spec(tick - 1) * (SQRT_RATIO_UP_Q64 as int), Q64 as int);
    } else if tick < 0 {
        lemma_sqrt_price_nonneg(tick + 1);
        lemma_step_down_le(sqrt_price_spec(tick + 1));
    }
}

proof fn lemma_sqrt_price_adjacent(tick: int)
    ensures
        sqrt_price_spec(tick) <= sqrt_price_spec(tick + 1),
{
    if tick + 1 > 0 {
        lemma_sqrt_price_nonneg(tick);
        lemma_step_up_ge(sqrt_price_spec(tick));
    } else {
        lemma_sqrt_price_nonneg(tick + 1);
        lemma_step_down_le(sqrt_price_spec(tick + 1));
    }
}

/// The sqrt-price is monotonically non-decreasing in the tick.
pub proof fn lemma_sqrt_price_monotonic(t1: int, t2: int)
    requires
        t1 <= t2,
    ensures
        sqrt_price_spec(t1) <= sqrt_price_spec(t2),
    decreases t2 - t1,
{
    if t1 < t2 {
        lemma_sqrt_price_monotonic(t1, t2 - 1);
        lemma_sqrt_price_adjacent(t2 - 1);
    }
}

/// Monotonicity as seen through `tick_to_sqrt_price`: where the larger tick
/// converts without overflow, so does the smaller, and the two fixed-point
/// results are ordered like the ticks.
pub proof fn lemma_tick_to_sqrt_price_monotonic(t1: int, t2: int)
    requires
        t1 <= t2,
    ensures
        spec_tick_to_sqrt_price(t2) is Ok ==> spec_tick_to_sqrt_price(t1) is Ok,
        spec_tick_to_sqrt_price(t1) is Ok && spec_tick_to_sqrt_price(t2) is Ok
            ==> spec_tick_to_sqrt_price(t1)->Ok_0 <= spec_tick_to_sqrt_price(t2)->Ok_0,
{
    lemma_sqrt_price_monotonic(t1, t2);
    lemma_sqrt_price_nonneg(t1);
}

/// One upward step on a concrete Q64.64 value, or `None` where the stepped
/// value would no longer fit in a `u128`.
fn step_up(x: u128) -> (r: Option<u128>)
    ensures
        r matches Some(v) ==> v == step_up_spec(x as int),
        r is None ==> step_up_spec(x as int) > u128::MAX,
{
    let xh: u128 = x / Q64;
    let xl: u128 = x % Q64;
    proof {
        lemma_fundamental_div_mod(x as int, Q64 as int);
        assert(xh <= 0xFFFF_FFFF_FFFF_FFFFu128) by {
            lemma_div_is_ordered(x as int, u128::MAX as int, Q64 as int);
        }
    }
    let t1: u128 = xh * SQRT_RATIO_UP_FRAC;
    let t2: u128 = (xl * SQRT_RATIO_UP_FRAC) / Q64;
    proof {
        lemma_div_is_ordered(
            (xl * SQRT_RATIO_UP_FRAC) as int,
            (Q64 as int) * (SQRT_RATIO_UP_FRAC as int),
            Q64 as int,
        );
        lemma_div_multiples_vanish(SQRT_RATIO_UP_FRAC as int, Q64 as int);
        // x * ratio == (x + xh * frac) * 2^64 + xl * frac, so dividing by
        // 2^64 hoists the whole-word part out of the quotient.
        lemma_hoist_over_denominator(
            (xl * SQRT_RATIO_UP_FRAC) as int,
            x as int + t1 as int,
            Q64 as nat,
        );
    }
    x.checked_add(t1 + t2)
}

/// One downward step on a concrete Q64.64 value.  Values at or below `2^64`
/// (every sqrt-price of a non-positive tick) can never overflow here.
fn step_down(x: u128) -> (r: u128)
    requires
        x <= Q64,
    ensures
        r == step_down_spec(x as int),
        r <= x,
{
    proof {
        lemma_step_down_le(x as int);
    }
    (x * SQRT_RATIO_DOWN_Q64) / Q64
}

/// Converts a tick to its Q64.64 sqrt-price.
///
/// Walks from tick zero toward `tick`, one ratio step per tick, each step
/// rounded toward zero.  Fails with `CalculationOverflow` exactly where the
/// fixed-point value exceeds 128 bits; it never silently wraps.
pub fn tick_to_sqrt_price(tick: i32) -> (r: Result<u128, LiquidityManagerError>)
    ensures
        r == spec_tick_to_sqrt_price(tick as int),
{
    if tick >= 0 {
        let mut x: u128 = Q64;
        let mut i: i32 = 0;
        while i < tick
            invariant
                0 <= i <= tick,
                x == sqrt_price_spec(i as int),
            decreases tick - i,
        {
            match step_up(x) {
                Some(next) => {
                    x = next;
                    i = i + 1;
                }
                None => {
                    proof {
                        lemma_sqrt_price_monotonic(i as int + 1, tick as int);
                    }
                    return Err(LiquidityManagerError::CalculationOverflow);
                }
            }
        }
        Ok(x)
    } else {
        let mut x: u128 = Q64;
        let mut i: i32 = 0;
        while i > tick
            invariant
                tick <= i <= 0,
                x == sqrt_price_spec(i as int),
                x <= Q64,
            decreases i - tick,
        {
            if x == 0 {
                // Every further step stays at zero.
                proof {
                    lemma_sqrt_price_monotonic(tick as int, i as int);
                    lemma_sqrt_price_nonneg(tick as int);
                }
                return Ok(0);
            }
            x = step_down(x);
            i = i - 1;
        }
        Ok(x)
    }
}

} // verus!
