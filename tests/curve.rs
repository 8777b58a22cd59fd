use cp_swap::curve::{check_invariant, AmmConfig, CurveCalculator};
use cp_swap::error::ErrorCode;

fn config() -> AmmConfig {
    AmmConfig { trade_fee_rate: 2_500, protocol_fee_rate: 120_000, fund_fee_rate: 40_000 }
}

#[test]
fn concrete_trade_matches_hand_computation() {
    let r = CurveCalculator::swap(10_000, 1_000_000, 2_000_000, &config()).unwrap();
    assert_eq!(r.destination_amount_swapped, 19_752);
    assert_eq!(r.protocol_fee, 3);
    assert_eq!(r.fund_fee, 1);
    assert_eq!(r.source_amount_swapped, 10_000);
    assert_eq!(r.new_swap_source_amount, 1_009_996);
    assert_eq!(r.new_swap_destination_amount, 1_980_248);
    assert!(1_009_996u128 * 1_980_248 >= 1_000_000u128 * 2_000_000);
    assert_eq!(check_invariant(1_000_000, 2_000_000, 1_009_996, 1_980_248), Ok(()));
}

#[test]
fn degenerate_trades_are_refused() {
    assert!(CurveCalculator::swap(0, 1_000, 1_000, &config()).is_none());
    assert!(CurveCalculator::swap(1_000, 1_000, 0, &config()).is_none());
    assert!(CurveCalculator::swap(1, 1_000_000, 1_000, &config()).is_none());
}

#[test]
fn fee_shares_stay_within_trade_fee() {
    let cfg = AmmConfig { trade_fee_rate: 500_000, protocol_fee_rate: 600_000, fund_fee_rate: 400_000 };
    for amount in [1u64, 7, 999, 1_000_003] {
        let trade_fee = amount * 500_000 / 1_000_000;
        if let Some(r) = CurveCalculator::swap(amount, 1_000, 1_000, &cfg) {
            assert!(r.protocol_fee + r.fund_fee <= trade_fee);
        }
    }
    let r = CurveCalculator::swap(999, 1_000, 1_000, &cfg).unwrap();
    assert_eq!((r.protocol_fee, r.fund_fee), (299, 199));
    let r = CurveCalculator::swap(1_000_000, 5_000_000, 5_000_000, &config()).unwrap();
    // trade fee 2_500: 300 to the protocol, 100 to the fund
    assert_eq!(r.protocol_fee, 300);
    assert_eq!(r.fund_fee, 100);
    assert!(r.protocol_fee + r.fund_fee <= 2_500);
}

#[test]
fn product_never_decreases() {
    for (x, y, a) in [(1u64, 1u64, 1u64), (3, 1_000, 2), (1_000_000, 7, 999_999), (u64::MAX, u64::MAX, u64::MAX), (5, u64::MAX, 1)] {
        if let Some(r) = CurveCalculator::swap(a, x, y, &config()) {
            let before = x as u128 * y as u128;
            match r.new_swap_source_amount.checked_mul(r.new_swap_destination_amount as u128) {
                Some(after) => assert!(after >= before),
                None => assert_eq!(
                    check_invariant(x, y, r.new_swap_source_amount, r.new_swap_destination_amount),
                    Err(ErrorCode::ArithmeticOverflow)
                ),
            }
        }
    }
}

#[test]
fn invariant_guard_rejects_a_shrinking_product() {
    assert_eq!(check_invariant(100, 100, 99, 100), Err(ErrorCode::InvariantViolation));
    assert_eq!(check_invariant(100, 100, 100, 100), Ok(()));
    assert_eq!(check_invariant(1, 1, u128::MAX, 2), Err(ErrorCode::ArithmeticOverflow));
}
