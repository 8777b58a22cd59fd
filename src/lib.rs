//! Swap-execution core of a constant-product AMM pool: transfer-fee
//! reconciliation, the fee-tiered constant-product curve, the invariant
//! guard, the fee ledger and the swap orchestration that ties them together.

pub mod error;
pub mod fees;
pub mod curve;
pub mod pool;
pub mod swap;
