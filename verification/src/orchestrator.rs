//! The rebalance state machine.
//!
//! A rebalance runs `Checking -> Withdrawing -> Swapping -> Redepositing ->
//! Committed`: decode a fresh pool snapshot, require the current tick to
//! sit outside the active range, withdraw the tracked liquidity, swap the
//! vaults toward the new target ratio, size and deposit liquidity for a
//! range re-centered on the current tick, and only then write the new
//! range and liquidity into the position record in one logical update.
//!
//! The surrounding execution environment gives the whole sequence
//! transaction-level atomicity: when any step fails, every external effect
//! already issued is rolled back, and because the controller touches the
//! position record only at commit, the record is left exactly as it was.
//! The controller never retries; retry policy belongs to the caller.
//!
//! The functions here are pure decision steps: they consume the replies
//! the external protocol gave and produce the next outbound request.  The
//! unverified shell around the library performs each request and hands the
//! reply back.

use vstd::prelude::*;

use crate::adapter::{spec_expected_accounts, validate_accounts, AccountRef, ProtocolRequest};
use crate::errors::LiquidityManagerError;
use crate::liquidity::{calculate_liquidity, spec_calculate_liquidity};
use crate::pool::{decode_pool, spec_decode_pool};
use crate::position::{AccountId, LiquidityManager};

verus! {

/// Policy constant: a freshly centered range spans this many ticks on
/// each side of the current tick.
pub const RANGE_HALF_WIDTH: i32 = 100;

/// Policy constant: post at most 110% of the sized token amounts when
/// redepositing, to tolerate price drift between sizing and execution.
pub const DEPOSIT_BUFFER_NUMERATOR: u64 = 110;

pub const DEPOSIT_BUFFER_DENOMINATOR: u64 = 100;

/// The stations of one rebalance attempt.
#[derive(Clone, Copy, Debug, PartialEq, Eq, Structural)]
pub enum RebalanceStep {
    Idle,
    Checking,
    Withdrawing,
    Swapping,
    Redepositing,
    Committed,
}

/// The two vault balances as the external protocol reports them after a
/// step.
#[derive(Clone, Copy, Debug, PartialEq, Eq, Structural)]
pub struct VaultBalances {
    pub amount_a: u64,
    pub amount_b: u64,
}

/// The external protocol's reply to a withdraw or swap request: the
/// resulting vault balances, or failure.
#[derive(Clone, Copy, Debug, PartialEq, Eq, Structural)]
pub enum StepOutcome {
    Failure,
    Completed(VaultBalances),
}

/// The external protocol's reply to a deposit request.
#[derive(Clone, Copy, Debug, PartialEq, Eq, Structural)]
pub enum DepositOutcome {
    Failure,
    Completed,
}

/// The replies of one complete rebalance attempt, as recorded by the
/// shell that performed the requests.
#[derive(Clone, Copy, Debug, PartialEq, Eq, Structural)]
pub struct RebalanceOutcomes {
    pub withdraw: StepOutcome,
    pub swap: StepOutcome,
    pub deposit: DepositOutcome,
}

/// Why a rebalance attempt aborted: a fault of the controller's own
/// logic, or a failure the external protocol reported at some step.
#[derive(Clone, Copy, Debug, PartialEq, Eq, Structural)]
pub enum RebalanceError {
    Manager(LiquidityManagerError),
    ProtocolFailure(RebalanceStep),
}

/// The controller's working state between the steps of one attempt.
#[derive(Clone, Copy, Debug, PartialEq, Eq, Structural)]
pub struct RebalanceSession {
    pub step: RebalanceStep,
    pub current_tick: i32,
    pub new_lower_tick: i32,
    pub new_upper_tick: i32,
    pub new_liquidity: u128,
}

/// A rebalance acts only when the current tick sits strictly outside the
/// active range.
pub open spec fn spec_needs_rebalance(position: LiquidityManager, current_tick: int) -> bool {
    current_tick < position.lower_tick || current_tick > position.upper_tick
}

/// The withdraw request of an attempt: remove everything the position
/// tracks.  A full withdrawal of a closed range has no slippage exposure,
/// so the minimum-out protections are deliberately zero.
pub open spec fn spec_withdraw_request(position: LiquidityManager) -> ProtocolRequest {
    ProtocolRequest::Withdraw { liquidity: position.current_liquidity, min_a: 0, min_b: 0 }
}

/// A session as it stands right after the checks, at `Withdrawing`.
pub open spec fn spec_fresh_session(current_tick: i32) -> RebalanceSession {
    RebalanceSession {
        step: RebalanceStep::Withdrawing,
        current_tick,
        new_lower_tick: 0,
        new_upper_tick: 0,
        new_liquidity: 0,
    }
}

/// Which error rejects a wrong account list: a list of the wrong length
/// misses an expected reference, any other mismatch is malformed data.
pub open spec fn spec_account_list_error(given: Seq<AccountRef>, expected: Seq<AccountRef>) -> LiquidityManagerError {
    if given.len() != expected.len() {
        LiquidityManagerError::AccountNotFound
    } else {
        LiquidityManagerError::InvalidAccountData
    }
}

/// What starting an attempt yields: the fresh session and the withdraw
/// request, or the error that rejects the attempt before any message is
/// sent.
pub open spec fn spec_begin_rebalance(
    position: LiquidityManager,
    caller: AccountId,
    pool_data: Seq<u8>,
    accounts: Seq<AccountRef>,
) -> Result<(RebalanceSession, ProtocolRequest), RebalanceError> {
    let expected = spec_expected_accounts(spec_withdraw_request(position), position);
    if caller != position.executor {
        Err(RebalanceError::Manager(LiquidityManagerError::InvalidExecutor))
    } else if accounts != expected {
        Err(RebalanceError::Manager(spec_account_list_error(accounts, expected)))
    } else {
        match spec_decode_pool(pool_data) {
            Err(e) => Err(RebalanceError::Manager(e)),
            Ok(snapshot) => if !spec_needs_rebalance(position, snapshot.current_tick as int) {
                Err(RebalanceError::Manager(LiquidityManagerError::NoRebalanceNeeded))
            } else {
                Ok((spec_fresh_session(snapshot.current_tick), spec_withdraw_request(position)))
            },
        }
    }
}

/// Whether the re-centered range still fits in signed 32-bit ticks.
pub open spec fn spec_range_representable(tick: int) -> bool {
    i32::MIN <= tick - RANGE_HALF_WIDTH && tick + RANGE_HALF_WIDTH <= i32::MAX
}

/// The liquidity sized for the re-centered range from the post-swap
/// balances.
pub open spec fn spec_sized_liquidity(
    tick: int,
    swapped: VaultBalances,
    decimals_a: u8,
    decimals_b: u8,
) -> Result<u128, LiquidityManagerError> {
    spec_calculate_liquidity(
        tick - RANGE_HALF_WIDTH,
        tick + RANGE_HALF_WIDTH,
        swapped.amount_a as int,
        swapped.amount_b as int,
        tick,
        decimals_a as nat,
        decimals_b as nat,
    )
}

/// Whether both deposit-side maxima can be buffered without overflow.
pub open spec fn spec_buffer_fits(swapped: VaultBalances) -> bool {
    swapped.amount_a * DEPOSIT_BUFFER_NUMERATOR <= u64::MAX && swapped.amount_b
        * DEPOSIT_BUFFER_NUMERATOR <= u64::MAX
}

/// A sized amount with the deposit-side slippage buffer applied.
pub open spec fn spec_buffered_max(amount: u64) -> u64
    recommends
        amount * DEPOSIT_BUFFER_NUMERATOR <= u64::MAX,
{
    (amount * DEPOSIT_BUFFER_NUMERATOR / (DEPOSIT_BUFFER_DENOMINATOR as int)) as u64
}

/// The deposit request of an attempt.
pub open spec fn spec_deposit_request(tick: int, liquidity: u128, swapped: VaultBalances) -> ProtocolRequest {
    ProtocolRequest::Deposit {
        lower_tick: (tick - RANGE_HALF_WIDTH) as i32,
        upper_tick: (tick + RANGE_HALF_WIDTH) as i32,
        liquidity,
        max_a: spec_buffered_max(swapped.amount_a),
        max_b: spec_buffered_max(swapped.amount_b),
    }
}

/// A session advanced to `Redepositing` with the new range and liquidity.
pub open spec fn spec_redeposit_session(
    session: RebalanceSession,
    tick: int,
    liquidity: u128,
) -> RebalanceSession {
    RebalanceSession {
        step: RebalanceStep::Redepositing,
        new_lower_tick: (tick - RANGE_HALF_WIDTH) as i32,
        new_upper_tick: (tick + RANGE_HALF_WIDTH) as i32,
        new_liquidity: liquidity,
        ..session
    }
}

/// The position record as one committed attempt leaves it.
pub open spec fn spec_committed_position(
    position: LiquidityManager,
    tick: int,
    liquidity: u128,
) -> LiquidityManager {
    LiquidityManager {
        lower_tick: (tick - RANGE_HALF_WIDTH) as i32,
        upper_tick: (tick + RANGE_HALF_WIDTH) as i32,
        current_liquidity: liquidity,
        ..position
    }
}

/// The redeposit tail of an attempt: re-center the range on the current
/// tick, size liquidity from the post-swap balances, buffer the maxima,
/// and commit unless the deposit fails.
pub open spec fn spec_redeposit(
    position: LiquidityManager,
    tick: int,
    swapped: VaultBalances,
    decimals_a: u8,
    decimals_b: u8,
    deposit: DepositOutcome,
) -> Result<LiquidityManager, RebalanceError> {
    if !spec_range_representable(tick) {
        Err(RebalanceError::Manager(LiquidityManagerError::CalculationOverflow))
    } else {
        match spec_sized_liquidity(tick, swapped, decimals_a, decimals_b) {
            Err(e) => Err(RebalanceError::Manager(e)),
            Ok(liquidity) => if !spec_buffer_fits(swapped) {
                Err(RebalanceError::Manager(LiquidityManagerError::CalculationOverflow))
            } else if deposit is Failure {
                Err(RebalanceError::ProtocolFailure(RebalanceStep::Redepositing))
            } else {
                Ok(spec_committed_position(position, tick, liquidity))
            },
        }
    }
}

/// What a whole rebalance attempt does to the position record, given the
/// replies of the external protocol: the updated record, or the error
/// that aborted the attempt (in which case the record stays untouched).
pub open spec fn spec_rebalance(
    position: LiquidityManager,
    caller: AccountId,
    pool_data: Seq<u8>,
    accounts: Seq<AccountRef>,
    decimals_a: u8,
    decimals_b: u8,
    outcomes: RebalanceOutcomes,
) -> Result<LiquidityManager, RebalanceError> {
    match spec_begin_rebalance(position, caller, pool_data, accounts) {
        Err(e) => Err(e),
        Ok(begun) => match outcomes.withdraw {
            StepOutcome::Failure => Err(RebalanceError::ProtocolFailure(RebalanceStep::Withdrawing)),
            StepOutcome::Completed(_) => match outcomes.swap {
                StepOutcome::Failure => Err(
                    RebalanceError::ProtocolFailure(RebalanceStep::Swapping),
                ),
                StepOutcome::Completed(swapped) => spec_redeposit(
                    position,
                    begun.0.current_tick as int,
                    swapped,
                    decimals_a,
                    decimals_b,
                    outcomes.deposit,
                ),
            },
        },
    }
}

/// With an authorized caller and a matching account list, a pool buffer
/// shorter than six bytes aborts the attempt with `InvalidPoolData`
/// before any message is issued; the record is then left untouched.
pub proof fn lemma_short_pool_buffer_aborts(
    position: LiquidityManager,
    caller: AccountId,
    pool_data: Seq<u8>,
    accounts: Seq<AccountRef>,
    decimals_a: u8,
    decimals_b: u8,
    outcomes: RebalanceOutcomes,
)
    requires
        caller == position.executor,
        accounts == spec_expected_accounts(spec_withdraw_request(position), position),
        pool_data.len() < 6,
    ensures
        spec_rebalance(position, caller, pool_data, accounts, decimals_a, decimals_b, outcomes)
            == Err::<LiquidityManager, RebalanceError>(
            RebalanceError::Manager(LiquidityManagerError::InvalidPoolData),
        ),
{
}

/// True when the current tick sits strictly outside the active range.
pub fn needs_rebalance(position: &LiquidityManager, current_tick: i32) -> (r: bool)
    ensures
        r == spec_needs_rebalance(*position, current_tick as int),
{
    current_tick < position.lower_tick || current_tick > position.upper_tick
}

/// Shorthand for a step that yields the next outbound request.
pub type StepResult = Result<ProtocolRequest, RebalanceError>;

/// Shorthand for the start of an attempt: the session plus the withdraw
/// request to perform.
pub type BeginResult = Result<(RebalanceSession, ProtocolRequest), RebalanceError>;

/// Starts a rebalance attempt: checks the caller against the operator,
/// validates the supplied account list, decodes a fresh pool snapshot,
/// and requires the current tick to sit outside the active range.  On
/// success the attempt stands at `Withdrawing` and the withdraw request
/// is ready to perform.
pub fn begin_rebalance(
    position: &LiquidityManager,
    caller: AccountId,
    pool_data: &[u8],
    accounts: &Vec<AccountRef>,
) -> (r: BeginResult)
    ensures
        r == spec_begin_rebalance(*position, caller, pool_data@, accounts@),
{
    if !(caller.hi == position.executor.hi && caller.lo == position.executor.lo) {
        return Err(RebalanceError::Manager(LiquidityManagerError::InvalidExecutor));
    }
    let withdraw_request = ProtocolRequest::Withdraw {
        liquidity: position.current_liquidity,
        min_a: 0,
        min_b: 0,
    };
    match validate_accounts(&withdraw_request, accounts, position) {
        Ok(()) => {}
        Err(e) => {
            return Err(RebalanceError::Manager(e));
        }
    }
    let snapshot = match decode_pool(pool_data) {
        Ok(s) => s,
        Err(e) => {
            return Err(RebalanceError::Manager(e));
        }
    };
    if !needs_rebalance(position, snapshot.current_tick) {
        return Err(RebalanceError::Manager(LiquidityManagerError::NoRebalanceNeeded));
    }
    Ok(
        (
            RebalanceSession {
                step: RebalanceStep::Withdrawing,
                current_tick: snapshot.current_tick,
                new_lower_tick: 0,
                new_upper_tick: 0,
                new_liquidity: 0,
            },
            withdraw_request,
        ),
    )
}

/// Consumes the withdraw reply and produces the swap request: trade the
/// whole post-withdraw balance of vault A toward asset B.  The swap must
/// carry a positive minimum-received floor — the controller never accepts
/// any price — so the caller-supplied floor is required to be nonzero.
pub fn continue_after_withdraw(
    session: &mut RebalanceSession,
    swap_min_out: u64,
    withdrawn: VaultBalances,
) -> (req: ProtocolRequest)
    requires
        old(session).step is Withdrawing,
        swap_min_out > 0,
    ensures
        *final(session) == (RebalanceSession { step: RebalanceStep::Swapping, ..*old(session) }),
        req == (ProtocolRequest::Swap {
            amount_in: withdrawn.amount_a,
            min_out: swap_min_out,
            a_to_b: true,
        }),
{
    session.step = RebalanceStep::Swapping;
    ProtocolRequest::Swap { amount_in: withdrawn.amount_a, min_out: swap_min_out, a_to_b: true }
}

/// Consumes the swap reply and produces the deposit request: re-center
/// the range on the current tick, size the liquidity from the post-swap
/// balances, and buffer the posted maxima by the deposit policy.  On any
/// arithmetic failure the session is left as it was and the attempt must
/// be aborted.
pub fn continue_after_swap(
    session: &mut RebalanceSession,
    swapped: VaultBalances,
    decimals_a: u8,
    decimals_b: u8,
) -> (r: StepResult)
    requires
        old(session).step is Swapping,
    ensures
        r is Err ==> *final(session) == *old(session),
        !spec_range_representable(old(session).current_tick as int) ==> r == Err::<ProtocolRequest, RebalanceError>(
            RebalanceError::Manager(LiquidityManagerError::CalculationOverflow),
        ),
        spec_range_representable(old(session).current_tick as int) && spec_sized_liquidity(
            old(session).current_tick as int,
            swapped,
            decimals_a,
            decimals_b,
        ) is Err ==> r == Err::<ProtocolRequest, RebalanceError>(
            RebalanceError::Manager(
                spec_sized_liquidity(
                    old(session).current_tick as int,
                    swapped,
                    decimals_a,
                    decimals_b,
                )->Err_0,
            ),
        ),
        spec_range_representable(old(session).current_tick as int) && spec_sized_liquidity(
            old(session).current_tick as int,
            swapped,
            decimals_a,
            decimals_b,
        ) is Ok && !spec_buffer_fits(swapped) ==> r == Err::<ProtocolRequest, RebalanceError>(
            RebalanceError::Manager(LiquidityManagerError::CalculationOverflow),
        ),
        spec_range_representable(old(session).current_tick as int) && spec_sized_liquidity(
            old(session).current_tick as int,
            swapped,
            decimals_a,
            decimals_b,
        ) is Ok && spec_buffer_fits(swapped) ==> r == Ok::<ProtocolRequest, RebalanceError>(
            spec_deposit_request(
                old(session).current_tick as int,
                spec_sized_liquidity(
                    old(session).current_tick as int,
                    swapped,
                    decimals_a,
                    decimals_b,
                )->Ok_0,
                swapped,
            ),
        ) && *final(session) == spec_redeposit_session(
            *old(session),
            old(session).current_tick as int,
            spec_sized_liquidity(
                old(session).current_tick as int,
                swapped,
                decimals_a,
                decimals_b,
            )->Ok_0,
        ) && final(session).new_lower_tick < final(session).new_upper_tick,
{
    let current_tick = session.current_tick;
    if current_tick < i32::MIN + RANGE_HALF_WIDTH || current_tick > i32::MAX - RANGE_HALF_WIDTH {
        return Err(RebalanceError::Manager(LiquidityManagerError::CalculationOverflow));
    }
    let new_lower_tick = current_tick - RANGE_HALF_WIDTH;
    let new_upper_tick = current_tick + RANGE_HALF_WIDTH;
    let liquidity = match calculate_liquidity(
        new_lower_tick,
        new_upper_tick,
        swapped.amount_a,
        swapped.amount_b,
        current_tick,
        decimals_a,
        decimals_b,
    ) {
        Ok(v) => v,
        Err(e) => {
            return Err(RebalanceError::Manager(e));
        }
    };
    let max_a = match swapped.amount_a.checked_mul(DEPOSIT_BUFFER_NUMERATOR) {
        Some(v) => v / DEPOSIT_BUFFER_DENOMINATOR,
        None => {
            return Err(RebalanceError::Manager(LiquidityManagerError::CalculationOverflow));
        }
    };
    let max_b = match swapped.amount_b.checked_mul(DEPOSIT_BUFFER_NUMERATOR) {
        Some(v) => v / DEPOSIT_BUFFER_DENOMINATOR,
        None => {
            return Err(RebalanceError::Manager(LiquidityManagerError::CalculationOverflow));
        }
    };
    session.step = RebalanceStep::Redepositing;
    session.new_lower_tick = new_lower_tick;
    session.new_upper_tick = new_upper_tick;
    session.new_liquidity = liquidity;
    Ok(
        ProtocolRequest::Deposit {
            lower_tick: new_lower_tick,
            upper_tick: new_upper_tick,
            liquidity,
            max_a,
            max_b,
        },
    )
}

/// Writes the attempt's new range and liquidity into the position record
/// as one logical update.  Called only after the external protocol has
/// acknowledged the deposit.
pub fn commit_rebalance(position: &mut LiquidityManager, session: &RebalanceSession)
    requires
        session.step is Redepositing,
        session.new_lower_tick < session.new_upper_tick,
    ensures
        *final(position) == (LiquidityManager {
            lower_tick: session.new_lower_tick,
            upper_tick: session.new_upper_tick,
            current_liquidity: session.new_liquidity,
            ..*old(position)
        }),
        final(position).wf(),
{
    position.lower_tick = session.new_lower_tick;
    position.upper_tick = session.new_upper_tick;
    position.current_liquidity = session.new_liquidity;
}

/// Shorthand for the overall outcome of an attempt.
pub type RebalanceResult = Result<(), RebalanceError>;

/// One whole rebalance attempt against the recorded replies of the
/// external protocol.
///
/// The position record is written exactly when the attempt reaches
/// `Committed`; on any abort — the controller's own checks, an arithmetic
/// guard, or a failure the external protocol reported at any step — the
/// record is returned byte-for-byte as it was, mirroring the
/// transaction-level atomicity of the execution environment.  The swap
/// step never accepts any price: the attempt demands a positive
/// minimum-received floor.
pub fn rebalance(
    position: &mut LiquidityManager,
    caller: AccountId,
    pool_data: &[u8],
    accounts: &Vec<AccountRef>,
    swap_min_out: u64,
    decimals_a: u8,
    decimals_b: u8,
    outcomes: &RebalanceOutcomes,
) -> (r: RebalanceResult)
    requires
        old(position).wf(),
        swap_min_out > 0,
    ensures
        ({
            let attempt = spec_rebalance(
                *old(position),
                caller,
                pool_data@,
                accounts@,
                decimals_a,
                decimals_b,
                *outcomes,
            );
            match attempt {
                Ok(updated) => r == Ok::<(), RebalanceError>(()) && *final(position) == updated,
                Err(e) => r == Err::<(), RebalanceError>(e),
            }
        }),
        r is Err ==> *final(position) == *old(position),
        final(position).wf(),
{
    let begun = match begin_rebalance(position, caller, pool_data, accounts) {
        Ok(v) => v,
        Err(e) => {
            return Err(e);
        }
    };
    let mut session = begun.0;
    let withdrawn = match outcomes.withdraw {
        StepOutcome::Completed(balances) => balances,
        StepOutcome::Failure => {
            return Err(RebalanceError::ProtocolFailure(RebalanceStep::Withdrawing));
        }
    };
    let _swap_request = continue_after_withdraw(&mut session, swap_min_out, withdrawn);
    let swapped = match outcomes.swap {
        StepOutcome::Completed(balances) => balances,
        StepOutcome::Failure => {
            return Err(RebalanceError::ProtocolFailure(RebalanceStep::Swapping));
        }
    };
    let _deposit_request = match continue_after_swap(&mut session, swapped, decimals_a, decimals_b) {
        Ok(req) => req,
        Err(e) => {
            return Err(e);
        }
    };
    match outcomes.deposit {
        DepositOutcome::Completed => {}
        DepositOutcome::Failure => {
            return Err(RebalanceError::ProtocolFailure(RebalanceStep::Redepositing));
        }
    }
    commit_rebalance(position, &session);
    Ok(())
}

} // verus!
