//! Range-management controller for a concentrated-liquidity position.
//!
//! The library holds the verified core of the controller: the fixed-point
//! tick/price math, the liquidity calculator, the pool-snapshot codec, the
//! durable position record with its authorization rules, the outbound
//! protocol messages, and the rebalance state machine.  Everything that
//! talks to the outside world (the AMM pool, the token vaults, the ledger)
//! is driven by a thin unverified shell that feeds plain values in and
//! carries protocol messages out.

pub mod adapter;
pub mod errors;
pub mod liquidity;
pub mod orchestrator;
pub mod pool;
pub mod position;
pub mod tick_math;
