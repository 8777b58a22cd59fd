use vstd::prelude::*;

use crate::curve::TradeDirection;

verus! {

/// A 32-byte account address, as two 128-bit halves.
#[derive(Clone, Copy, Debug, PartialEq, Eq, Structural)]
pub struct AccountKey {
    pub hi: u128,
    pub lo: u128,
}

/// Bit of `PoolState::status` that, when set, disables swapping.
pub const SWAP_DISABLED_BIT: u8 = 4;

/// The persistent record of one pool: its vault addresses, its status bits and
/// the protocol and fund fees accrued on each side but not yet collected.
#[derive(Clone, Copy, Debug, PartialEq, Eq, Structural)]
pub struct PoolState {
    pub status: u8,
    pub token_0_vault: AccountKey,
    pub token_1_vault: AccountKey,
    pub protocol_fees_token_0: u64,
    pub protocol_fees_token_1: u64,
    pub fund_fees_token_0: u64,
    pub fund_fees_token_1: u64,
}

/// Accrued protocol and fund fees on asset 0.
pub open spec fn accrued_0(p: PoolState) -> int {
    p.protocol_fees_token_0 + p.fund_fees_token_0
}

/// Accrued protocol and fund fees on asset 1.
pub open spec fn accrued_1(p: PoolState) -> int {
    p.protocol_fees_token_1 + p.fund_fees_token_1
}

/// Accrued fees on the side that receives the input, and on the other one.
pub open spec fn accrued_sides(p: PoolState, direction: TradeDirection) -> (int, int) {
    match direction {
        TradeDirection::ZeroForOne => (accrued_0(p), accrued_1(p)),
        TradeDirection::OneForZero => (accrued_1(p), accrued_0(p)),
    }
}

/// Both raw balances cover the fees accrued on their side.
pub open spec fn covers_accrued(
    p: PoolState,
    direction: TradeDirection,
    input_vault_amount: int,
    output_vault_amount: int,
) -> bool {
    &&& accrued_sides(p, direction).0 <= input_vault_amount
    &&& accrued_sides(p, direction).1 <= output_vault_amount
}

/// The ledger once a trade's protocol and fund fees join the input side.
pub open spec fn with_fees(
    p: PoolState,
    direction: TradeDirection,
    protocol_fee: int,
    fund_fee: int,
) -> PoolState {
    match direction {
        TradeDirection::ZeroForOne => PoolState {
            protocol_fees_token_0: (p.protocol_fees_token_0 + protocol_fee) as u64,
            fund_fees_token_0: (p.fund_fees_token_0 + fund_fee) as u64,
            ..p
        },
        TradeDirection::OneForZero => PoolState {
            protocol_fees_token_1: (p.protocol_fees_token_1 + protocol_fee) as u64,
            fund_fees_token_1: (p.fund_fees_token_1 + fund_fee) as u64,
            ..p
        },
    }
}

/// The input side's accumulators can take the fees without leaving 64 bits.
pub open spec fn fees_fit(
    p: PoolState,
    direction: TradeDirection,
    protocol_fee: int,
    fund_fee: int,
) -> bool {
    match direction {
        TradeDirection::ZeroForOne => p.protocol_fees_token_0 + protocol_fee <= u64::MAX
            && p.fund_fees_token_0 + fund_fee <= u64::MAX,
        TradeDirection::OneForZero => p.protocol_fees_token_1 + protocol_fee <= u64::MAX
            && p.fund_fees_token_1 + fund_fee <= u64::MAX,
    }
}

impl PoolState {
    pub open spec fn swap_enabled(self) -> bool {
        self.status & SWAP_DISABLED_BIT == 0
    }

    /// Whether swapping is enabled on the pool.
    pub fn is_swap_enabled(&self) -> (r: bool)
        ensures
            r == self.swap_enabled(),
    {
        self.status & SWAP_DISABLED_BIT == 0
    }

    /// The vault balances with the accrued, uncollected fees taken out;
    /// `None` when a balance does not cover its side's accrued fees.
    pub fn vault_amount_without_fee(&self, vault_0: u64, vault_1: u64) -> (r: Option<(u64, u64)>)
        ensures
            r is Some <==> accrued_0(*self) <= vault_0 && accrued_1(*self) <= vault_1,
            r matches Some(net) ==> net.0 == vault_0 - accrued_0(*self) && net.1 == vault_1
                - accrued_1(*self),
    {
        let fees_0: u128 = self.protocol_fees_token_0 as u128 + self.fund_fees_token_0 as u128;
        let fees_1: u128 = self.protocol_fees_token_1 as u128 + self.fund_fees_token_1 as u128;
        if fees_0 > vault_0 as u128 || fees_1 > vault_1 as u128 {
            None
        } else {
            Some(((vault_0 as u128 - fees_0) as u64, (vault_1 as u128 - fees_1) as u64))
        }
    }

    /// The pricing reserves of a trade in `direction`, input side first.
    pub fn net_reserves(
        &self,
        direction: TradeDirection,
        input_vault_amount: u64,
        output_vault_amount: u64,
    ) -> (r: Option<(u64, u64)>)
        ensures
            r is Some <==> covers_accrued(
                *self,
                direction,
                input_vault_amount as int,
                output_vault_amount as int,
            ),
            r matches Some(net) ==> net.0 == input_vault_amount - accrued_sides(
                *self,
                direction,
            ).0 && net.1 == output_vault_amount - accrued_sides(*self, direction).1,
    {
        match direction {
            TradeDirection::ZeroForOne => self.vault_amount_without_fee(
                input_vault_amount,
                output_vault_amount,
            ),
            TradeDirection::OneForZero => match self.vault_amount_without_fee(
                output_vault_amount,
                input_vault_amount,
            ) {
                Some((net_0, net_1)) => Some((net_1, net_0)),
                None => None,
            },
        }
    }

    /// Adds a trade's protocol and fund fees to the input side's accumulators;
    /// `false`, with nothing changed, when one of them would leave 64 bits.
    pub fn accrue_fees(&mut self, direction: TradeDirection, protocol_fee: u64, fund_fee: u64) -> (r:
        bool)
        ensures
            r == fees_fit(*old(self), direction, protocol_fee as int, fund_fee as int),
            r ==> *final(self) == with_fees(
                *old(self),
                direction,
                protocol_fee as int,
                fund_fee as int,
            ),
            !r ==> *final(self) == *old(self),
    {
        match direction {
            TradeDirection::ZeroForOne => {
                match (
                    self.protocol_fees_token_0.checked_add(protocol_fee),
                    self.fund_fees_token_0.checked_add(fund_fee),
                ) {
                    (Some(p), Some(f)) => {
                        self.protocol_fees_token_0 = p;
                        self.fund_fees_token_0 = f;
                        true
                    },
                    _ => false,
                }
            },
            TradeDirection::OneForZero => {
                match (
                    self.protocol_fees_token_1.checked_add(protocol_fee),
                    self.fund_fees_token_1.checked_add(fund_fee),
                ) {
                    (Some(p), Some(f)) => {
                        self.protocol_fees_token_1 = p;
                        self.fund_fees_token_1 = f;
                        true
                    },
                    _ => false,
                }
            },
        }
    }
}

} // verus!
