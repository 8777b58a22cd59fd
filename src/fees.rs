use vstd::prelude::*;

use crate::error::ErrorCode;

verus! {

/// One whole amount expressed in basis points.
pub const ONE_IN_BASIS_POINTS: u16 = 10_000;

/// The fee a token's own transfer mechanism withholds, for the current epoch.
/// A mint without the transfer-fee extension has the zero schedule.
#[derive(Clone, Copy, Debug, PartialEq, Eq, Structural)]
pub struct TransferFeeSchedule {
    /// Fee rate, in hundredths of a percent of the transferred amount.
    pub transfer_fee_basis_points: u16,
    /// Cap on the fee of a single transfer.
    pub maximum_fee: u64,
}

/// `n / d` rounded up, for `n >= 0` and `d > 0`.
pub open spec fn ceil_div(n: int, d: int) -> int {
    (n + d - 1) / d
}

/// The fee withheld on a transfer of `amount`:
/// `min(maximum_fee, ceil(amount * basis_points / 10_000))`.
pub open spec fn transfer_fee(s: TransferFeeSchedule, amount: int) -> int {
    let raw = ceil_div(amount * s.transfer_fee_basis_points, ONE_IN_BASIS_POINTS as int);
    if raw < s.maximum_fee {
        raw
    } else {
        s.maximum_fee as int
    }
}

/// What arrives when `gross` is sent.
pub open spec fn net_of(s: TransferFeeSchedule, gross: int) -> int {
    gross - transfer_fee(s, gross)
}

/// The least gross amount whose net is at least `net`: either the fee has
/// saturated at its cap (`net + maximum_fee`) or the uncapped rate is inverted
/// exactly (`ceil(net * 10_000 / (10_000 - basis_points))`).
pub open spec fn min_gross(s: TransferFeeSchedule, net: int) -> int {
    let capped = net + s.maximum_fee;
    if net == 0 {
        0
    } else if s.transfer_fee_basis_points == ONE_IN_BASIS_POINTS {
        capped
    } else {
        let uncapped = ceil_div(
            net * ONE_IN_BASIS_POINTS,
            ONE_IN_BASIS_POINTS - s.transfer_fee_basis_points,
        );
        if uncapped < capped {
            uncapped
        } else {
            capped
        }
    }
}

proof fn lemma_ceil_div(n: int, d: int)
    requires
        n >= 0,
        d > 0,
    ensures
        ceil_div(n, d) >= 0,
        ceil_div(n, d) * d >= n,
        (ceil_div(n, d) - 1) * d < n,
{
    let x = n + d - 1;
    vstd::arithmetic::div_mod::lemma_fundamental_div_mod(x, d);
    vstd::arithmetic::div_mod::lemma_mod_bound(x, d);
    vstd::arithmetic::div_mod::lemma_div_pos_is_pos(x, d);
    let q = x / d;
    let m = x % d;
    assert(q * d >= n && (q - 1) * d < n) by (nonlinear_arith)
        requires
            x == d * q + m,
            0 <= m < d,
            x == n + d - 1,
    ;
}

proof fn lemma_fee_bounds(s: TransferFeeSchedule, amount: int)
    requires
        s.wf(),
        amount >= 0,
    ensures
        0 <= transfer_fee(s, amount) <= s.maximum_fee,
        transfer_fee(s, amount) <= amount,
{
    let b = s.transfer_fee_basis_points as int;
    let n = ONE_IN_BASIS_POINTS as int;
    assert(amount * b >= 0 && amount * b <= amount * n) by (nonlinear_arith)
        requires
            0 <= b <= n,
            amount >= 0,
    ;
    lemma_ceil_div(amount * b, n);
    let k = ceil_div(amount * b, n);
    assert(k <= amount) by (nonlinear_arith)
        requires
            (k - 1) * n < amount * b,
            amount * b <= amount * n,
            n > 0,
    ;
}

/// Whatever the schedule, the least gross amount nets at least the target,
/// and every smaller gross amount nets less than it.
pub proof fn lemma_inverse_fee_round_trip(s: TransferFeeSchedule, net: int)
    requires
        s.wf(),
        net >= 0,
    ensures
        net_of(s, min_gross(s, net)) >= net,
        forall|h: int| 0 <= h < min_gross(s, net) ==> #[trigger] net_of(s, h) < net,
{
    let g = min_gross(s, net);
    let b = s.transfer_fee_basis_points as int;
    let n = ONE_IN_BASIS_POINTS as int;
    let c = s.maximum_fee as int;
    if net > 0 {
        lemma_fee_bounds(s, g);
        if b < n {
            let u = ceil_div(net * n, n - b);
            assert(net * n >= 0) by (nonlinear_arith)
                requires
                    net > 0,
                    n > 0,
            ;
            lemma_ceil_div(net * n, n - b);
            if g == u {
                assert(u * b >= 0) by (nonlinear_arith)
                    requires
                        u >= 0,
                        b >= 0,
            ;
                lemma_ceil_div(u * b, n);
                let k = ceil_div(u * b, n);
                assert(k <= u - net) by (nonlinear_arith)
                    requires
                        u * (n - b) >= net * n,
                        (k - 1) * n < u * b,
                        n > 0,
                ;
            }
        }
    }
    assert forall|h: int| 0 <= h < g implies #[trigger] net_of(s, h) < net by {
        let k = ceil_div(h * b, n);
        assert(h * b >= 0) by (nonlinear_arith)
            requires
                h >= 0,
                b >= 0,
        ;
        lemma_ceil_div(h * b, n);
        if k < c {
            if b == n {
                assert(k == h) by (nonlinear_arith)
                    requires
                        k * n >= h * b,
                        (k - 1) * n < h * b,
                        b == n,
                        n > 0,
                ;
            } else {
                let u = ceil_div(net * n, n - b);
                assert(net * n >= 0) by (nonlinear_arith)
                    requires
                        net > 0,
                        n > 0,
                ;
                lemma_ceil_div(net * n, n - b);
                assert(h - k < net) by (nonlinear_arith)
                    requires
                        h <= u - 1,
                        (u - 1) * (n - b) < net * n,
                        k * n >= h * b,
                        0 <= b < n,
                        h >= 0,
                ;
            }
        }
    }
}

/// Through a mint that withholds nothing, every amount arrives whole and is
/// its own least gross amount.
pub proof fn lemma_zero_schedule_round_trip(s: TransferFeeSchedule, x: int)
    requires
        s.transfer_fee_basis_points == 0,
        s.maximum_fee == 0,
        x >= 0,
    ensures
        transfer_fee(s, x) == 0,
        min_gross(s, x) == x,
{
    assert(x * s.transfer_fee_basis_points == 0);
    assert(ceil_div(x * ONE_IN_BASIS_POINTS, ONE_IN_BASIS_POINTS as int) == x) by {
        assert((x * 10_000 + 9_999) / 10_000 == x) by (nonlinear_arith)
            requires
                x >= 0,
        ;
    }
}

impl TransferFeeSchedule {
    /// A rate of at most one whole amount, as the token program enforces.
    pub open spec fn wf(self) -> bool {
        self.transfer_fee_basis_points <= ONE_IN_BASIS_POINTS
    }

    /// The schedule of a mint that withholds nothing.
    pub fn zero() -> (r: Self)
        ensures
            r.wf(),
            r.transfer_fee_basis_points == 0,
            r.maximum_fee == 0,
    {
        TransferFeeSchedule { transfer_fee_basis_points: 0, maximum_fee: 0 }
    }

    /// The fee withheld when `amount` is transferred.
    pub fn forward_fee(&self, amount: u64) -> (fee: u64)
        requires
            self.wf(),
        ensures
            fee == transfer_fee(*self, amount as int),
            fee <= amount,
    {
        proof {
            lemma_fee_bounds(*self, amount as int);
        }
        let bps = self.transfer_fee_basis_points as u128;
        assert(amount * bps <= 0xffff_ffff_ffff_ffffu128 * 10_000) by (nonlinear_arith)
            requires
                bps <= 10_000,
                amount <= 0xffff_ffff_ffff_ffffu64,
        ;
        let numerator: u128 = amount as u128 * bps;
        let raw: u128 = (numerator + 9_999) / 10_000;
        if raw < self.maximum_fee as u128 {
            raw as u64
        } else {
            self.maximum_fee
        }
    }

    /// The least gross amount that, once this schedule's fee is withheld,
    /// delivers at least `net`; it fails when that amount exceeds 64 bits.
    pub fn inverse_fee(&self, net: u64) -> (r: Result<u64, ErrorCode>)
        requires
            self.wf(),
        ensures
            match r {
                Ok(gross) => gross == min_gross(*self, net as int),
                Err(e) => e == ErrorCode::FeeCalculationOverflow && min_gross(*self, net as int)
                    > u64::MAX,
            },
            r matches Ok(gross) ==> net_of(*self, gross as int) >= net,
            r matches Ok(gross) ==> forall|h: int|
                0 <= h < gross ==> #[trigger] net_of(*self, h) < net,
    {
        proof {
            lemma_inverse_fee_round_trip(*self, net as int);
        }
        let bps = self.transfer_fee_basis_points as u128;
        let capped: u128 = net as u128 + self.maximum_fee as u128;
        let gross: u128 = if net == 0 {
            0
        } else if bps == 10_000 {
            capped
        } else {
            let rest: u128 = 10_000 - bps;
            let uncapped: u128 = (net as u128 * 10_000 + rest - 1) / rest;
            if uncapped < capped {
                uncapped
            } else {
                capped
            }
        };
        if gross > u64::MAX as u128 {
            Err(ErrorCode::FeeCalculationOverflow)
        } else {
            Ok(gross as u64)
        }
    }
}

} // verus!
