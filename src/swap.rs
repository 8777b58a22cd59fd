use vstd::prelude::*;

use crate::curve::{
    AmmConfig, CurveCalculator, SwapResult, TradeDirection, check_invariant, curve_result,
    invariant_holds, is_degenerate, lemma_swap_keeps_product,
};
use crate::error::ErrorCode;
use crate::fees::{TransferFeeSchedule, lemma_inverse_fee_round_trip, min_gross, net_of, transfer_fee};
use crate::pool::{
    AccountKey, PoolState, accrued_sides, covers_accrued, fees_fit, with_fees,
};

verus! {

/// A token account as the swap reads it.
#[derive(Clone, Copy, Debug, PartialEq, Eq, Structural)]
pub struct TokenVault {
    pub key: AccountKey,
    pub mint: AccountKey,
    pub amount: u64,
}

/// A mint as the swap reads it: its address and its transfer-fee schedule
/// for the current epoch.
#[derive(Clone, Copy, Debug, PartialEq, Eq, Structural)]
pub struct TokenMint {
    pub key: AccountKey,
    pub transfer_fee: TransferFeeSchedule,
}

/// The accounts a swap reads besides the pool itself.
#[derive(Clone, Copy, Debug, PartialEq, Eq, Structural)]
pub struct Swap {
    /// The pool's fee rates.
    pub amm_config: AmmConfig,
    /// The pool vault that receives the input.
    pub input_vault: TokenVault,
    /// The pool vault that pays the output.
    pub output_vault: TokenVault,
    /// The mint of the input token.
    pub input_token_mint: TokenMint,
    /// The mint of the output token.
    pub output_token_mint: TokenMint,
}

impl Swap {
    /// Rates and schedules within the bounds their owners enforce.
    pub open spec fn wf(self) -> bool {
        &&& self.amm_config.wf()
        &&& self.input_token_mint.transfer_fee.wf()
        &&& self.output_token_mint.transfer_fee.wf()
    }

    /// Both vaults belong to the pool and both mints are the vaults' own.
    pub open spec fn bound_to(self, pool: PoolState) -> bool {
        &&& (self.input_vault.key == pool.token_0_vault || self.input_vault.key
            == pool.token_1_vault)
        &&& (self.output_vault.key == pool.token_0_vault || self.output_vault.key
            == pool.token_1_vault)
        &&& self.input_token_mint.key == self.input_vault.mint
        &&& self.output_token_mint.key == self.output_vault.mint
    }

    pub open spec fn direction_in(self, pool: PoolState) -> TradeDirection {
        if self.input_vault.key == pool.token_0_vault {
            TradeDirection::ZeroForOne
        } else {
            TradeDirection::OneForZero
        }
    }

    /// Checks that the accounts belong to `pool` and gives the direction
    /// of the trade.
    pub fn validate(&self, pool: &PoolState) -> (r: Result<TradeDirection, ErrorCode>)
        ensures
            r is Ok <==> self.bound_to(*pool),
            r matches Ok(d) ==> d == self.direction_in(*pool),
            r matches Err(e) ==> e == ErrorCode::InvalidAccount,
    {
        let input_key = self.input_vault.key;
        let output_key = self.output_vault.key;
        if !(input_key == pool.token_0_vault || input_key == pool.token_1_vault) {
            return Err(ErrorCode::InvalidAccount);
        }
        if !(output_key == pool.token_0_vault || output_key == pool.token_1_vault) {
            return Err(ErrorCode::InvalidAccount);
        }
        if self.input_token_mint.key != self.input_vault.mint || self.output_token_mint.key
            != self.output_vault.mint {
            return Err(ErrorCode::InvalidAccount);
        }
        if input_key == pool.token_0_vault {
            Ok(TradeDirection::ZeroForOne)
        } else {
            Ok(TradeDirection::OneForZero)
        }
    }
}

/// What a successful swap did, and the two transfers that settle it.
#[derive(Clone, Copy, Debug, PartialEq, Eq, Structural)]
pub struct SwapOutcome {
    pub trade_direction: TradeDirection,
    /// The curve's result on the pricing reserves.
    pub result: SwapResult,
    /// Gross amount to move from the user into the input vault.
    pub input_transfer_amount: u64,
    /// Amount to move from the output vault to the user.
    pub output_transfer_amount: u64,
    /// What the user receives once the output mint's transfer fee is withheld.
    pub amount_received: u64,
}

/// The input that reaches the pool once the input mint's fee is withheld.
pub open spec fn actual_amount_in(acc: Swap, amount_in: int) -> int {
    amount_in - transfer_fee(acc.input_token_mint.transfer_fee, amount_in)
}

/// What a swap of `amount_in` with floor `minimum_amount_out` gives on `pool`.
/// The checks come in this order: accounts, status, pricing reserves, curve,
/// reserve product, size of the input transfer, slippage, fee ledger.
pub open spec fn swap_outcome(
    pool: PoolState,
    acc: Swap,
    amount_in: int,
    minimum_amount_out: int,
) -> Result<SwapOutcome, ErrorCode> {
    let direction = acc.direction_in(pool);
    let (accrued_in, accrued_out) = accrued_sides(pool, direction);
    let total_in = acc.input_vault.amount - accrued_in;
    let total_out = acc.output_vault.amount - accrued_out;
    let actual = actual_amount_in(acc, amount_in);
    let res = curve_result(total_in, total_out, actual, acc.amm_config);
    let gross_in = min_gross(acc.input_token_mint.transfer_fee, actual);
    let out = res.destination_amount_swapped;
    let received = out - transfer_fee(acc.output_token_mint.transfer_fee, out as int);
    if !acc.bound_to(pool) {
        Err(ErrorCode::InvalidAccount)
    } else if !pool.swap_enabled() {
        Err(ErrorCode::NotApproved)
    } else if !covers_accrued(
        pool,
        direction,
        acc.input_vault.amount as int,
        acc.output_vault.amount as int,
    ) {
        Err(ErrorCode::ArithmeticOverflow)
    } else if is_degenerate(total_in, total_out, actual, acc.amm_config) {
        Err(ErrorCode::ZeroTradingTokens)
    } else if res.new_swap_source_amount * res.new_swap_destination_amount > u128::MAX {
        Err(ErrorCode::ArithmeticOverflow)
    } else if !invariant_holds(
        total_in,
        total_out,
        res.new_swap_source_amount as int,
        res.new_swap_destination_amount as int,
    ) {
        Err(ErrorCode::InvariantViolation)
    } else if gross_in > u64::MAX {
        Err(ErrorCode::FeeCalculationOverflow)
    } else if received < minimum_amount_out {
        Err(ErrorCode::ExceededSlippage)
    } else if !fees_fit(pool, direction, res.protocol_fee as int, res.fund_fee as int) {
        Err(ErrorCode::ArithmeticOverflow)
    } else {
        Ok(
            SwapOutcome {
                trade_direction: direction,
                result: res,
                input_transfer_amount: gross_in as u64,
                output_transfer_amount: out,
                amount_received: received as u64,
            },
        )
    }
}

/// Runs one swap against `pool`. On success the trade's protocol and fund
/// fees have joined the input side's ledger and the outcome names the two
/// transfers to issue; on failure the pool is exactly as it was.
pub fn swap(pool: &mut PoolState, accounts: &Swap, amount_in: u64, minimum_amount_out: u64) -> (r:
    Result<SwapOutcome, ErrorCode>)
    requires
        accounts.wf(),
    ensures
        r == swap_outcome(*old(pool), *accounts, amount_in as int, minimum_amount_out as int),
        r matches Ok(o) ==> *final(pool) == with_fees(
            *old(pool),
            o.trade_direction,
            o.result.protocol_fee as int,
            o.result.fund_fee as int,
        ),
        r is Err ==> *final(pool) == *old(pool),
        r != Err::<SwapOutcome, ErrorCode>(ErrorCode::InvariantViolation),
        r != Err::<SwapOutcome, ErrorCode>(ErrorCode::FeeCalculationOverflow),
        r matches Ok(o) ==> o.input_transfer_amount <= amount_in,
{
    let trade_direction = accounts.validate(pool)?;
    if !pool.is_swap_enabled() {
        return Err(ErrorCode::NotApproved);
    }
    let input_fee = accounts.input_token_mint.transfer_fee;
    let output_fee = accounts.output_token_mint.transfer_fee;
    let actual_amount_in = amount_in - input_fee.forward_fee(amount_in);
    proof {
        // `amount_in` itself nets `actual_amount_in`, so the least such gross amount is no larger.
        lemma_inverse_fee_round_trip(input_fee, actual_amount_in as int);
        assert(min_gross(input_fee, actual_amount_in as int) <= amount_in) by {
            if min_gross(input_fee, actual_amount_in as int) > amount_in {
                assert(net_of(input_fee, amount_in as int) < actual_amount_in);
            }
        }
    }
    let (total_input_token_amount, total_output_token_amount) = match pool.net_reserves(
        trade_direction,
        accounts.input_vault.amount,
        accounts.output_vault.amount,
    ) {
        Some(net) => net,
        None => return Err(ErrorCode::ArithmeticOverflow),
    };
    let result = match CurveCalculator::swap(
        actual_amount_in,
        total_input_token_amount,
        total_output_token_amount,
        &accounts.amm_config,
    ) {
        Some(res) => res,
        None => return Err(ErrorCode::ZeroTradingTokens),
    };
    proof {
        lemma_swap_keeps_product(
            total_input_token_amount as int,
            total_output_token_amount as int,
            actual_amount_in as int,
            accounts.amm_config,
        );
    }
    check_invariant(
        total_input_token_amount,
        total_output_token_amount,
        result.new_swap_source_amount,
        result.new_swap_destination_amount,
    )?;
    let input_transfer_amount = input_fee.inverse_fee(result.source_amount_swapped)?;
    let output_transfer_amount = result.destination_amount_swapped;
    let amount_received = output_transfer_amount - output_fee.forward_fee(output_transfer_amount);
    if amount_received < minimum_amount_out {
        return Err(ErrorCode::ExceededSlippage);
    }
    if !pool.accrue_fees(trade_direction, result.protocol_fee, result.fund_fee) {
        return Err(ErrorCode::ArithmeticOverflow);
    }
    Ok(
        SwapOutcome {
            trade_direction,
            result,
            input_transfer_amount,
            output_transfer_amount,
            amount_received,
        },
    )
}

/// A swap of nothing on an open pool whose accounts are its own and whose
/// vaults cover the accrued fees is refused as degenerate.
pub proof fn lemma_zero_input_refused(pool: PoolState, acc: Swap, minimum_amount_out: int)
    requires
        acc.wf(),
        acc.bound_to(pool),
        pool.swap_enabled(),
        covers_accrued(
            pool,
            acc.direction_in(pool),
            acc.input_vault.amount as int,
            acc.output_vault.amount as int,
        ),
    ensures
        swap_outcome(pool, acc, 0, minimum_amount_out) == Err::<SwapOutcome, ErrorCode>(
            ErrorCode::ZeroTradingTokens,
        ),
{
    assert(0 * acc.input_token_mint.transfer_fee.transfer_fee_basis_points == 0);
    assert(actual_amount_in(acc, 0) == 0);
}

/// A swap that would succeed with no floor, but whose output net of the
/// output mint's fee falls short of the floor asked for, is refused for
/// slippage; `swap` then leaves the pool as it was.
pub proof fn lemma_slippage_refused(
    pool: PoolState,
    acc: Swap,
    amount_in: int,
    minimum_amount_out: int,
)
    requires
        acc.wf(),
        swap_outcome(pool, acc, amount_in, 0) is Ok,
        ({
            let o = swap_outcome(pool, acc, amount_in, 0)->Ok_0;
            o.amount_received < minimum_amount_out
        }),
    ensures
        swap_outcome(pool, acc, amount_in, minimum_amount_out) == Err::<SwapOutcome, ErrorCode>(
            ErrorCode::ExceededSlippage,
        ),
{
}

} // verus!
