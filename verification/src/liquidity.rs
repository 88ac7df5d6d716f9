//! Liquidity sizing for a tick range.
//!
//! Given a tick range, the current tick, and the two token amounts on hand,
//! these functions compute the liquidity magnitude obtainable from the pool.
//! A range entirely above or below the current price is funded by a single
//! asset; inside the range the binding asset determines the achievable
//! liquidity, so the result is the minimum of the two single-sided sizes.
//!
//! Sqrt-prices are Q64.64 fixed point, so each single-sided formula carries
//! one rescaling by `2^64`: the asset-A size is
//! `amount * high / (high - low) * low / 2^64`, evaluated left to right
//! with every division rounding toward zero, and the asset-B size is
//! `amount * 2^64 / (high - low)`.  Every intermediate product is guarded:
//! a value that would not fit in 128 bits fails with `CalculationOverflow`
//! and is never truncated.

use vstd::prelude::*;
use vstd::arithmetic::mul::{lemma_mul_inequality, lemma_mul_is_associative, lemma_mul_is_commutative};
use vstd::arithmetic::power::{lemma_pow0, lemma_pow1, lemma_pow_adds, lemma_pow_increases, pow};

use crate::errors::LiquidityManagerError;
use crate::tick_math::{spec_tick_to_sqrt_price, tick_to_sqrt_price, Q64};

verus! {

/// What `adjust_for_decimals` returns: the amount scaled from human units
/// to native integer units, or `CalculationOverflow` where `amount *
/// 10^decimals` exceeds 128 bits.
pub open spec fn spec_adjust_for_decimals(amount: int, decimals: nat) -> Result<
    u128,
    LiquidityManagerError,
> {
    if amount * pow(10, decimals) > u128::MAX {
        Err(LiquidityManagerError::CalculationOverflow)
    } else {
        Ok((amount * pow(10, decimals)) as u128)
    }
}

/// What `calculate_liquidity_a` returns:
/// `amount * high / (high - low) * low / 2^64`, evaluated left to right
/// with floor divisions, each intermediate product guarded against
/// overflow.
pub open spec fn spec_calculate_liquidity_a(amount: int, low: int, high: int) -> Result<
    u128,
    LiquidityManagerError,
> {
    if high <= low {
        Err(LiquidityManagerError::InvalidTickRange)
    } else if amount * high > u128::MAX || amount * high / (high - low) * low > u128::MAX {
        Err(LiquidityManagerError::CalculationOverflow)
    } else {
        Ok((amount * high / (high - low) * low / (Q64 as int)) as u128)
    }
}

/// What `calculate_liquidity_b` returns: `amount * 2^64 / (high - low)`,
/// guarded against overflow.
pub open spec fn spec_calculate_liquidity_b(amount: int, low: int, high: int) -> Result<
    u128,
    LiquidityManagerError,
> {
    if high <= low {
        Err(LiquidityManagerError::InvalidTickRange)
    } else if amount * Q64 > u128::MAX {
        Err(LiquidityManagerError::CalculationOverflow)
    } else {
        Ok((amount * Q64 / (high - low)) as u128)
    }
}

/// What `calculate_liquidity` returns: sqrt-prices of the three ticks,
/// amounts scaled to native units, then the single-sided or the binding
/// (minimum) liquidity depending on where the current tick sits relative
/// to the range.  The first failing step decides the error.
pub open spec fn spec_calculate_liquidity(
    lower: int,
    upper: int,
    amount_a: int,
    amount_b: int,
    current: int,
    decimals_a: nat,
    decimals_b: nat,
) -> Result<u128, LiquidityManagerError> {
    match spec_tick_to_sqrt_price(lower) {
        Err(e) => Err(e),
        Ok(sqrt_lower) => match spec_tick_to_sqrt_price(upper) {
            Err(e) => Err(e),
            Ok(sqrt_upper) => match spec_tick_to_sqrt_price(current) {
                Err(e) => Err(e),
                Ok(sqrt_current) => match spec_adjust_for_decimals(amount_a, decimals_a) {
                    Err(e) => Err(e),
                    Ok(adj_a) => match spec_adjust_for_decimals(amount_b, decimals_b) {
                        Err(e) => Err(e),
                        Ok(adj_b) => if current < lower {
                            spec_calculate_liquidity_b(
                                adj_b as int,
                                sqrt_lower as int,
                                sqrt_upper as int,
                            )
                        } else if current >= upper {
                            spec_calculate_liquidity_a(
                                adj_a as int,
                                sqrt_lower as int,
                                sqrt_upper as int,
                            )
                        } else {
                            match spec_calculate_liquidity_a(
                                adj_a as int,
                                sqrt_current as int,
                                sqrt_upper as int,
                            ) {
                                Err(e) => Err(e),
                                Ok(liq_a) => match spec_calculate_liquidity_b(
                                    adj_b as int,
                                    sqrt_lower as int,
                                    sqrt_current as int,
                                ) {
                                    Err(e) => Err(e),
                                    Ok(liq_b) => Ok(if liq_a <= liq_b { liq_a } else { liq_b }),
                                },
                            }
                        },
                    },
                },
            },
        },
    }
}

/// Scales a human-unit amount to native integer units: `amount *
/// 10^decimals`, failing with `CalculationOverflow` where the product
/// exceeds 128 bits.
pub fn adjust_for_decimals(amount: u64, decimals: u8) -> (r: Result<u128, LiquidityManagerError>)
    ensures
        r == spec_adjust_for_decimals(amount as int, decimals as nat),
{
    let mut acc: u128 = amount as u128;
    let mut i: u8 = 0;
    proof {
        lemma_pow0(10);
    }
    while i < decimals
        invariant
            0 <= i <= decimals,
            acc == (amount as int) * pow(10, i as nat),
        decreases decimals - i,
    {
        proof {
            lemma_pow1(10);
            lemma_pow_adds(10, i as nat, 1);
            lemma_mul_is_associative(amount as int, pow(10, i as nat), 10);
        }
        match acc.checked_mul(10) {
            Some(next) => {
                acc = next;
                i = i + 1;
            }
            None => {
                proof {
                    lemma_pow_increases(10, (i + 1) as nat, decimals as nat);
                    lemma_mul_inequality(
                        pow(10, (i + 1) as nat),
                        pow(10, decimals as nat),
                        amount as int,
                    );
                    lemma_mul_is_commutative(pow(10, (i + 1) as nat), amount as int);
                    lemma_mul_is_commutative(pow(10, decimals as nat), amount as int);
                }
                return Err(LiquidityManagerError::CalculationOverflow);
            }
        }
    }
    Ok(acc)
}

/// Liquidity of a range funded entirely by asset A:
/// `amount * high / (high - low) * low / 2^64` over Q64.64 sqrt-prices,
/// every division rounding toward zero.
pub fn calculate_liquidity_a(amount_a: u128, sqrt_price_low: u128, sqrt_price_high: u128) -> (r:
    Result<u128, LiquidityManagerError>)
    ensures
        r == spec_calculate_liquidity_a(
            amount_a as int,
            sqrt_price_low as int,
            sqrt_price_high as int,
        ),
{
    if sqrt_price_high <= sqrt_price_low {
        return Err(LiquidityManagerError::InvalidTickRange);
    }
    let sqrt_diff = sqrt_price_high - sqrt_price_low;
    match amount_a.checked_mul(sqrt_price_high) {
        None => Err(LiquidityManagerError::CalculationOverflow),
        Some(p) => match (p / sqrt_diff).checked_mul(sqrt_price_low) {
            None => Err(LiquidityManagerError::CalculationOverflow),
            Some(q) => Ok(q / Q64),
        },
    }
}

/// Liquidity of a range funded entirely by asset B:
/// `amount * 2^64 / (high - low)` over Q64.64 sqrt-prices.
pub fn calculate_liquidity_b(amount_b: u128, sqrt_price_low: u128, sqrt_price_high: u128) -> (r:
    Result<u128, LiquidityManagerError>)
    ensures
        r == spec_calculate_liquidity_b(
            amount_b as int,
            sqrt_price_low as int,
            sqrt_price_high as int,
        ),
{
    if sqrt_price_high <= sqrt_price_low {
        return Err(LiquidityManagerError::InvalidTickRange);
    }
    let sqrt_diff = sqrt_price_high - sqrt_price_low;
    match amount_b.checked_mul(Q64) {
        None => Err(LiquidityManagerError::CalculationOverflow),
        Some(p) => Ok(p / sqrt_diff),
    }
}

/// Sizes the liquidity obtainable for the range `[lower_tick, upper_tick]`
/// from `amount_a` and `amount_b` (in human units), given the pool's
/// current tick and each asset's decimal count.
///
/// Below the range the position is single-sided in asset B; at or above
/// the upper tick it is single-sided in asset A; inside the range the
/// binding asset decides, so the result is the minimum of the two
/// single-sided sizes.
pub fn calculate_liquidity(
    lower_tick: i32,
    upper_tick: i32,
    amount_a: u64,
    amount_b: u64,
    current_tick: i32,
    token_a_decimals: u8,
    token_b_decimals: u8,
) -> (r: Result<u128, LiquidityManagerError>)
    ensures
        r == spec_calculate_liquidity(
            lower_tick as int,
            upper_tick as int,
            amount_a as int,
            amount_b as int,
            current_tick as int,
            token_a_decimals as nat,
            token_b_decimals as nat,
        ),
{
    let sqrt_price_lower = match tick_to_sqrt_price(lower_tick) {
        Ok(v) => v,
        Err(e) => {
            return Err(e);
        }
    };
    let sqrt_price_upper = match tick_to_sqrt_price(upper_tick) {
        Ok(v) => v,
        Err(e) => {
            return Err(e);
        }
    };
    let sqrt_price_current = match tick_to_sqrt_price(current_tick) {
        Ok(v) => v,
        Err(e) => {
            return Err(e);
        }
    };
    let adjusted_a = match adjust_for_decimals(amount_a, token_a_decimals) {
        Ok(v) => v,
        Err(e) => {
            return Err(e);
        }
    };
    let adjusted_b = match adjust_for_decimals(amount_b, token_b_decimals) {
        Ok(v) => v,
        Err(e) => {
            return Err(e);
        }
    };
    if current_tick < lower_tick {
        calculate_liquidity_b(adjusted_b, sqrt_price_lower, sqrt_price_upper)
    } else if current_tick >= upper_tick {
        calculate_liquidity_a(adjusted_a, sqrt_price_lower, sqrt_price_upper)
    } else {
        let liq_a = match calculate_liquidity_a(adjusted_a, sqrt_price_current, sqrt_price_upper) {
            Ok(v) => v,
            Err(e) => {
                return Err(e);
            }
        };
        let liq_b = match calculate_liquidity_b(adjusted_b, sqrt_price_lower, sqrt_price_current) {
            Ok(v) => v,
            Err(e) => {
                return Err(e);
            }
        };
        if liq_a <= liq_b {
            Ok(liq_a)
        } else {
            Ok(liq_b)
        }
    }
}

/// Below the range the result is computed purely from asset B: two calls
/// that differ only in the asset-A amount agree, provided both asset-A
/// amounts scale to native units without overflow.
pub proof fn lemma_below_range_ignores_amount_a(
    lower: int,
    upper: int,
    amount_a_1: int,
    amount_a_2: int,
    amount_b: int,
    current: int,
    decimals_a: nat,
    decimals_b: nat,
)
    requires
        current < lower,
        0 <= amount_a_1,
        0 <= amount_a_2,
        amount_a_1 * pow(10, decimals_a) <= u128::MAX,
        amount_a_2 * pow(10, decimals_a) <= u128::MAX,
    ensures
        spec_calculate_liquidity(
            lower,
            upper,
            amount_a_1,
            amount_b,
            current,
            decimals_a,
            decimals_b,
        ) == spec_calculate_liquidity(
            lower,
            upper,
            amount_a_2,
            amount_b,
            current,
            decimals_a,
            decimals_b,
        ),
{
}

/// Inside `[lower, upper)`, once every preliminary step succeeds, the
/// result is the minimum of the asset-A size over `[current, upper]` and
/// the asset-B size over `[lower, current]`.
pub proof fn lemma_in_range_is_min(
    lower: int,
    upper: int,
    amount_a: int,
    amount_b: int,
    current: int,
    decimals_a: nat,
    decimals_b: nat,
)
    requires
        lower <= current < upper,
        spec_tick_to_sqrt_price(lower) is Ok,
        spec_tick_to_sqrt_price(upper) is Ok,
        spec_tick_to_sqrt_price(current) is Ok,
        spec_adjust_for_decimals(amount_a, decimals_a) is Ok,
        spec_adjust_for_decimals(amount_b, decimals_b) is Ok,
    ensures
        ({
            let liq_a = spec_calculate_liquidity_a(
                spec_adjust_for_decimals(amount_a, decimals_a)->Ok_0 as int,
                spec_tick_to_sqrt_price(current)->Ok_0 as int,
                spec_tick_to_sqrt_price(upper)->Ok_0 as int,
            );
            let liq_b = spec_calculate_liquidity_b(
                spec_adjust_for_decimals(amount_b, decimals_b)->Ok_0 as int,
                spec_tick_to_sqrt_price(lower)->Ok_0 as int,
                spec_tick_to_sqrt_price(current)->Ok_0 as int,
            );
            liq_a is Ok && liq_b is Ok ==> spec_calculate_liquidity(
                lower,
                upper,
                amount_a,
                amount_b,
                current,
                decimals_a,
                decimals_b,
            ) == Ok::<u128, LiquidityManagerError>(
                if liq_a->Ok_0 <= liq_b->Ok_0 {
                    liq_a->Ok_0
                } else {
                    liq_b->Ok_0
                },
            )
        }),
{
}

} // verus!
