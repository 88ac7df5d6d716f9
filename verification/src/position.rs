//! The durable record of the managed position.
//!
//! A `LiquidityManager` holds the identities the controller was configured
//! with, the active tick range, and the liquidity the controller believes
//! it has deposited into the external pool.  The range invariant
//! `lower_tick < upper_tick` holds at all times: construction rejects a
//! violated range and every mutation preserves it.  Only the owner may
//! change the range; only the operator may trigger a rebalance.

use vstd::prelude::*;

use crate::errors::LiquidityManagerError;

verus! {

/// A 32-byte identity of an external account, held as two 128-bit words.
#[derive(Clone, Copy, Debug, PartialEq, Eq, Structural)]
pub struct AccountId {
    pub hi: u128,
    pub lo: u128,
}

/// The managed position record.
#[derive(Clone, Copy, Debug, PartialEq, Eq, Structural)]
pub struct LiquidityManager {
    /// Owner: authorized to change the range and the executor.
    pub authority: AccountId,
    /// Operator: authorized to trigger rebalances.
    pub executor: AccountId,
    /// The external AMM pool this position tracks.
    pub pool: AccountId,
    pub token_mint_a: AccountId,
    pub token_mint_b: AccountId,
    pub token_vault_a: AccountId,
    pub token_vault_b: AccountId,
    pub lower_tick: i32,
    pub upper_tick: i32,
    /// Liquidity deposited under this position, per the controller's own
    /// bookkeeping; authoritative only right after a successful
    /// deposit/withdraw round-trip.
    pub current_liquidity: u128,
}

impl LiquidityManager {
    /// The record's invariant: the range is non-empty.
    pub open spec fn wf(self) -> bool {
        self.lower_tick < self.upper_tick
    }
}

/// Creates the position record.  Fails with `InvalidTickRange` where
/// `lower_tick >= upper_tick`; a fresh record tracks no liquidity.
pub fn initialize(
    authority: AccountId,
    executor: AccountId,
    pool: AccountId,
    token_mint_a: AccountId,
    token_mint_b: AccountId,
    token_vault_a: AccountId,
    token_vault_b: AccountId,
    lower_tick: i32,
    upper_tick: i32,
) -> (r: Result<LiquidityManager, LiquidityManagerError>)
    ensures
        lower_tick >= upper_tick ==> r == Err::<LiquidityManager, LiquidityManagerError>(
            LiquidityManagerError::InvalidTickRange,
        ),
        lower_tick < upper_tick ==> r == Ok::<LiquidityManager, LiquidityManagerError>(
            LiquidityManager {
                authority,
                executor,
                pool,
                token_mint_a,
                token_mint_b,
                token_vault_a,
                token_vault_b,
                lower_tick,
                upper_tick,
                current_liquidity: 0,
            },
        ),
        r matches Ok(m) ==> m.wf(),
{
    if lower_tick >= upper_tick {
        return Err(LiquidityManagerError::InvalidTickRange);
    }
    Ok(
        LiquidityManager {
            authority,
            executor,
            pool,
            token_mint_a,
            token_mint_b,
            token_vault_a,
            token_vault_b,
            lower_tick,
            upper_tick,
            current_liquidity: 0,
        },
    )
}

/// Shorthand for the unit-or-error result of a record mutation.
pub type UnitResult = Result<(), LiquidityManagerError>;

impl LiquidityManager {
    /// Updates the target tick range.  Owner-only: any other caller is
    /// rejected with `InvalidExecutor`; an empty range is rejected with
    /// `InvalidTickRange`.  On rejection the record is unchanged.
    pub fn update_range(&mut self, caller: AccountId, lower: i32, upper: i32) -> (r: UnitResult)
        requires
            old(self).wf(),
        ensures
            caller != old(self).authority ==> r == Err::<(), LiquidityManagerError>(
                LiquidityManagerError::InvalidExecutor,
            ) && *final(self) == *old(self),
            caller == old(self).authority && lower >= upper ==> r == Err::<(), LiquidityManagerError>(
                LiquidityManagerError::InvalidTickRange,
            ) && *final(self) == *old(self),
            caller == old(self).authority && lower < upper ==> r == Ok::<(), LiquidityManagerError>(())
                && *final(self) == (LiquidityManager {
                lower_tick: lower,
                upper_tick: upper,
                ..*old(self)
            }),
            final(self).wf(),
    {
        if !(caller.hi == self.authority.hi && caller.lo == self.authority.lo) {
            return Err(LiquidityManagerError::InvalidExecutor);
        }
        if lower >= upper {
            return Err(LiquidityManagerError::InvalidTickRange);
        }
        self.lower_tick = lower;
        self.upper_tick = upper;
        Ok(())
    }
}

} // verus!
