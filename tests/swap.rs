use cp_swap::curve::{AmmConfig, TradeDirection};
use cp_swap::error::ErrorCode;
use cp_swap::fees::TransferFeeSchedule;
use cp_swap::pool::{AccountKey, PoolState};
use cp_swap::swap::{swap, Swap, TokenMint, TokenVault};

const VAULT_0: AccountKey = AccountKey { hi: 1, lo: 10 };
const VAULT_1: AccountKey = AccountKey { hi: 1, lo: 11 };
const MINT_0: AccountKey = AccountKey { hi: 2, lo: 20 };
const MINT_1: AccountKey = AccountKey { hi: 2, lo: 21 };

fn pool() -> PoolState {
    PoolState {
        status: 0,
        token_0_vault: VAULT_0,
        token_1_vault: VAULT_1,
        protocol_fees_token_0: 0,
        protocol_fees_token_1: 0,
        fund_fees_token_0: 0,
        fund_fees_token_1: 0,
    }
}

fn accounts(input: u64, output: u64, in_fee: TransferFeeSchedule, out_fee: TransferFeeSchedule) -> Swap {
    Swap {
        amm_config: AmmConfig { trade_fee_rate: 2_500, protocol_fee_rate: 120_000, fund_fee_rate: 40_000 },
        input_vault: TokenVault { key: VAULT_0, mint: MINT_0, amount: input },
        output_vault: TokenVault { key: VAULT_1, mint: MINT_1, amount: output },
        input_token_mint: TokenMint { key: MINT_0, transfer_fee: in_fee },
        output_token_mint: TokenMint { key: MINT_1, transfer_fee: out_fee },
    }
}

fn plain(input: u64, output: u64) -> Swap {
    accounts(input, output, TransferFeeSchedule::zero(), TransferFeeSchedule::zero())
}

#[test]
fn concrete_swap_updates_ledger_and_sizes_transfers() {
    let mut p = pool();
    let o = swap(&mut p, &plain(1_000_000, 2_000_000), 10_000, 1).unwrap();
    assert_eq!(o.trade_direction, TradeDirection::ZeroForOne);
    assert_eq!(o.result.destination_amount_swapped, 19_752);
    assert_eq!(o.result.new_swap_source_amount, 1_009_996);
    assert_eq!(o.result.new_swap_destination_amount, 1_980_248);
    assert_eq!(o.input_transfer_amount, 10_000);
    assert_eq!(o.output_transfer_amount, 19_752);
    assert_eq!(o.amount_received, 19_752);
    assert_eq!((p.protocol_fees_token_0, p.fund_fees_token_0), (3, 1));
    assert_eq!((p.protocol_fees_token_1, p.fund_fees_token_1), (0, 0));
}

#[test]
fn reverse_direction_credits_the_other_side() {
    let mut p = pool();
    let mut acc = plain(2_000_000, 1_000_000);
    std::mem::swap(&mut acc.input_vault, &mut acc.output_vault);
    std::mem::swap(&mut acc.input_token_mint, &mut acc.output_token_mint);
    acc.input_vault.amount = 1_000_000;
    acc.output_vault.amount = 2_000_000;
    let o = swap(&mut p, &acc, 10_000, 1).unwrap();
    assert_eq!(o.trade_direction, TradeDirection::OneForZero);
    assert_eq!(o.result.destination_amount_swapped, 19_752);
    assert_eq!((p.protocol_fees_token_1, p.fund_fees_token_1), (3, 1));
    assert_eq!((p.protocol_fees_token_0, p.fund_fees_token_0), (0, 0));
}

#[test]
fn accrued_fees_are_left_out_of_pricing() {
    let mut p = pool();
    p.protocol_fees_token_0 = 30;
    p.fund_fees_token_0 = 10;
    p.protocol_fees_token_1 = 5;
    let o = swap(&mut p, &plain(1_000_040, 2_000_005), 10_000, 1).unwrap();
    assert_eq!(o.result.destination_amount_swapped, 19_752);
    assert_eq!(o.result.new_swap_source_amount, 1_009_996);
    assert_eq!((p.protocol_fees_token_0, p.fund_fees_token_0), (33, 11));
}

#[test]
fn input_transfer_fee_is_stripped_and_grossed_up() {
    let one_percent = TransferFeeSchedule { transfer_fee_basis_points: 100, maximum_fee: 1_000_000 };
    let mut p = pool();
    let acc = accounts(1_000_000, 2_000_000, one_percent, TransferFeeSchedule::zero());
    let o = swap(&mut p, &acc, 10_000, 1).unwrap();
    assert_eq!(o.result.source_amount_swapped, 9_900);
    assert_eq!(o.input_transfer_amount, 10_000);
}

#[test]
fn output_transfer_fee_counts_against_slippage() {
    let one_percent = TransferFeeSchedule { transfer_fee_basis_points: 100, maximum_fee: 1_000_000 };
    let acc = accounts(1_000_000, 2_000_000, TransferFeeSchedule::zero(), one_percent);
    let mut p = pool();
    let o = swap(&mut p, &acc, 10_000, 19_554).unwrap();
    assert_eq!(o.output_transfer_amount, 19_752);
    assert_eq!(o.amount_received, 19_554);
    let mut q = pool();
    assert_eq!(swap(&mut q, &acc, 10_000, 19_555), Err(ErrorCode::ExceededSlippage));
    assert_eq!(q, pool());
}

#[test]
fn zero_input_is_refused_without_mutation() {
    let mut p = pool();
    p.protocol_fees_token_0 = 7;
    let before = p;
    assert_eq!(swap(&mut p, &plain(1_000_000, 2_000_000), 0, 0), Err(ErrorCode::ZeroTradingTokens));
    assert_eq!(p, before);
}

#[test]
fn slippage_failure_leaves_pool_unchanged() {
    let mut p = pool();
    p.fund_fees_token_0 = 2;
    let before = p;
    assert_eq!(swap(&mut p, &plain(1_000_002, 2_000_000), 10_000, 19_754), Err(ErrorCode::ExceededSlippage));
    assert_eq!(p, before);
}

#[test]
fn disabled_pool_is_not_approved() {
    let mut p = pool();
    p.status = 4;
    assert_eq!(swap(&mut p, &plain(1_000_000, 2_000_000), 10_000, 1), Err(ErrorCode::NotApproved));
    p.status = 3;
    assert!(swap(&mut p, &plain(1_000_000, 2_000_000), 10_000, 1).is_ok());
}

#[test]
fn foreign_accounts_are_refused() {
    let mut p = pool();
    let mut acc = plain(1_000_000, 2_000_000);
    acc.output_vault.key = AccountKey { hi: 9, lo: 9 };
    assert_eq!(swap(&mut p, &acc, 10_000, 1), Err(ErrorCode::InvalidAccount));
    let mut acc = plain(1_000_000, 2_000_000);
    acc.input_token_mint.key = MINT_1;
    assert_eq!(swap(&mut p, &acc, 10_000, 1), Err(ErrorCode::InvalidAccount));
    assert_eq!(p, pool());
}

#[test]
fn accrued_fees_above_balance_are_refused() {
    let mut p = pool();
    p.protocol_fees_token_1 = 2_000_001;
    let before = p;
    assert_eq!(swap(&mut p, &plain(1_000_000, 2_000_000), 10_000, 1), Err(ErrorCode::ArithmeticOverflow));
    assert_eq!(p, before);
}

#[test]
fn ledger_overflow_is_refused() {
    let mut p = pool();
    p.protocol_fees_token_0 = u64::MAX - 2;
    let before = p;
    let acc = plain(u64::MAX, 2_000_000);
    assert_eq!(swap(&mut p, &acc, 10_000, 1), Err(ErrorCode::ArithmeticOverflow));
    assert_eq!(p, before);
}

#[test]
fn input_transfer_never_exceeds_amount_in() {
    for (bps, cap) in [(1u16, u64::MAX), (100, 1_000_000), (500, 10), (10_000, 3)] {
        let s = TransferFeeSchedule { transfer_fee_basis_points: bps, maximum_fee: cap };
        let acc = accounts(1_000, u64::MAX / 2, s, TransferFeeSchedule::zero());
        for amount in [50u64, 999, 123_456, u64::MAX / 4] {
            let mut p = pool();
            if let Ok(o) = swap(&mut p, &acc, amount, 0) {
                assert!(o.input_transfer_amount <= amount);
                let actual = o.result.source_amount_swapped;
                assert!(o.input_transfer_amount - s.forward_fee(o.input_transfer_amount) >= actual);
            }
        }
    }
}

#[test]
fn repeated_full_reserve_swaps_never_drain() {
    let mut p = pool();
    let (mut input, mut output) = (1_000u64, 1_000u64);
    let mut refused = None;
    for _ in 0..200 {
        match swap(&mut p, &plain(input, output), input, 0) {
            Ok(o) => {
                assert!(o.result.new_swap_destination_amount > 0);
                input += o.result.source_amount_swapped;
                output -= o.output_transfer_amount;
                assert!(output > 0);
            }
            Err(e) => {
                refused = Some(e);
                break;
            }
        }
    }
    assert_eq!(refused, Some(ErrorCode::ZeroTradingTokens));
}
