use vstd::prelude::*;

verus! {

/// Reasons a swap is rejected. Every one of them leaves the pool untouched.
#[derive(Clone, Copy, Debug, PartialEq, Eq, Structural)]
pub enum ErrorCode {
    /// Swapping is disabled on the pool.
    NotApproved,
    /// The trade is degenerate: nothing goes in or nothing comes out.
    ZeroTradingTokens,
    /// The product of the reserves would decrease.
    InvariantViolation,
    /// The user would receive less than the minimum asked for.
    ExceededSlippage,
    /// A transfer amount does not fit in 64 bits.
    FeeCalculationOverflow,
    /// A checked computation left its integer domain.
    ArithmeticOverflow,
    /// A vault or mint does not belong to the pool being traded on.
    InvalidAccount,
}

} // verus!
