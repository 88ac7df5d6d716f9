//! Error taxonomy of the controller.

use vstd::prelude::*;

verus! {

/// Everything that can go wrong inside the controller's own logic.
///
/// `NoRebalanceNeeded` is a normal "nothing to do" outcome, not a fault:
/// it is reported as an error only so that a rebalance attempt that finds
/// the price still inside the range aborts cleanly.
#[derive(Clone, Copy, Debug, PartialEq, Eq, Structural)]
pub enum LiquidityManagerError {
    /// The current tick is still inside the active range.
    NoRebalanceNeeded,
    /// The caller is not authorized for the attempted operation.
    InvalidExecutor,
    /// The pool snapshot buffer is too short to hold a snapshot.
    InvalidPoolData,
    /// An arithmetic guard tripped; the result would not fit its type.
    CalculationOverflow,
    /// An expected external account reference is missing.
    AccountNotFound,
    /// A tick range with `upper <= lower` was supplied.
    InvalidTickRange,
    /// An account list does not match the external protocol's convention.
    InvalidAccountData,
}

} // verus!
