use vstd::prelude::*;

use crate::error::ErrorCode;

verus! {

/// Denominator of every pool fee rate: a rate `r` stands for `r / 1_000_000`.
pub const FEE_RATE_DENOMINATOR_VALUE: u64 = 1_000_000;

/// The pool's fee rates, each a numerator over `FEE_RATE_DENOMINATOR_VALUE`.
#[derive(Clone, Copy, Debug, PartialEq, Eq, Structural)]
pub struct AmmConfig {
    /// Share of the input amount taken as trade fee.
    pub trade_fee_rate: u64,
    /// Share of the trade fee earmarked for the protocol.
    pub protocol_fee_rate: u64,
    /// Share of the trade fee earmarked for the fund.
    pub fund_fee_rate: u64,
}

impl AmmConfig {
    /// Rates as the configuration guarantees them: the trade fee is at most
    /// the whole input, and the protocol and fund shares together at most the
    /// whole trade fee.
    pub open spec fn wf(self) -> bool {
        &&& self.trade_fee_rate <= FEE_RATE_DENOMINATOR_VALUE
        &&& self.protocol_fee_rate + self.fund_fee_rate <= FEE_RATE_DENOMINATOR_VALUE
    }
}

/// Which vault of the pool receives the input.
#[derive(Clone, Copy, Debug, PartialEq, Eq, Structural)]
pub enum TradeDirection {
    ZeroForOne,
    OneForZero,
}

/// What one trade does to the pricing reserves, and the fees it carves out.
#[derive(Clone, Copy, Debug, PartialEq, Eq, Structural)]
pub struct SwapResult {
    /// Input-side pricing reserve after the trade.
    pub new_swap_source_amount: u128,
    /// Output-side pricing reserve after the trade.
    pub new_swap_destination_amount: u64,
    /// Amount taken in, net of any transfer fee.
    pub source_amount_swapped: u64,
    /// Amount paid out of the output reserve.
    pub destination_amount_swapped: u64,
    /// Protocol share of the trade fee.
    pub protocol_fee: u64,
    /// Fund share of the trade fee.
    pub fund_fee: u64,
}

/// `floor(amount * rate / FEE_RATE_DENOMINATOR_VALUE)`.
pub open spec fn rate_share(amount: int, rate: int) -> int {
    amount * rate / FEE_RATE_DENOMINATOR_VALUE as int
}

/// The constant-product exchange: `floor(total_out * in / (total_in + in))`,
/// and nothing when the input reserve and the input are both empty.
pub open spec fn exchange(total_in: int, total_out: int, amount_in: int) -> int {
    if total_in + amount_in == 0 {
        0
    } else {
        total_out * amount_in / (total_in + amount_in)
    }
}

/// The trade fee taken from `amount_in`.
pub open spec fn trade_fee_of(amount_in: int, cfg: AmmConfig) -> int {
    rate_share(amount_in, cfg.trade_fee_rate as int)
}

/// What is exchanged once the trade fee is taken.
pub open spec fn amount_after_fee(amount_in: int, cfg: AmmConfig) -> int {
    amount_in - trade_fee_of(amount_in, cfg)
}

pub open spec fn protocol_fee_of(amount_in: int, cfg: AmmConfig) -> int {
    rate_share(trade_fee_of(amount_in, cfg), cfg.protocol_fee_rate as int)
}

pub open spec fn fund_fee_of(amount_in: int, cfg: AmmConfig) -> int {
    rate_share(trade_fee_of(amount_in, cfg), cfg.fund_fee_rate as int)
}

/// What leaves the output reserve.
pub open spec fn amount_out_of(total_in: int, total_out: int, amount_in: int, cfg: AmmConfig) -> int {
    exchange(total_in, total_out, amount_after_fee(amount_in, cfg))
}

/// Input-side reserve after the trade: the whole input joins it except the
/// protocol and fund shares, which wait apart for collection.
pub open spec fn new_source_of(total_in: int, amount_in: int, cfg: AmmConfig) -> int {
    total_in + amount_in - protocol_fee_of(amount_in, cfg) - fund_fee_of(amount_in, cfg)
}

pub open spec fn new_destination_of(
    total_in: int,
    total_out: int,
    amount_in: int,
    cfg: AmmConfig,
) -> int {
    total_out - amount_out_of(total_in, total_out, amount_in, cfg)
}

/// A trade is refused when nothing goes in, the output reserve is empty, or
/// nothing would come out.
pub open spec fn is_degenerate(total_in: int, total_out: int, amount_in: int, cfg: AmmConfig) -> bool {
    amount_in == 0 || total_out == 0 || amount_out_of(total_in, total_out, amount_in, cfg) == 0
}

/// The result that `CurveCalculator::swap` gives on a trade that is not degenerate.
pub open spec fn curve_result(total_in: int, total_out: int, amount_in: int, cfg: AmmConfig) -> SwapResult {
    SwapResult {
        new_swap_source_amount: new_source_of(total_in, amount_in, cfg) as u128,
        new_swap_destination_amount: new_destination_of(total_in, total_out, amount_in, cfg) as u64,
        source_amount_swapped: amount_in as u64,
        destination_amount_swapped: amount_out_of(total_in, total_out, amount_in, cfg) as u64,
        protocol_fee: protocol_fee_of(amount_in, cfg) as u64,
        fund_fee: fund_fee_of(amount_in, cfg) as u64,
    }
}

proof fn lemma_rate_share_bounds(amount: int, rate: int)
    requires
        amount >= 0,
        0 <= rate <= FEE_RATE_DENOMINATOR_VALUE,
    ensures
        0 <= rate_share(amount, rate) <= amount,
{
    let d = FEE_RATE_DENOMINATOR_VALUE as int;
    assert(0 <= amount * rate <= amount * d) by (nonlinear_arith)
        requires
            amount >= 0,
            0 <= rate <= d,
    ;
    vstd::arithmetic::div_mod::lemma_div_is_ordered(amount * rate, amount * d, d);
    vstd::arithmetic::div_mod::lemma_div_pos_is_pos(amount * rate, d);
    vstd::arithmetic::div_mod::lemma_div_by_multiple(amount, d);
}

/// The protocol and fund shares are carved out of the trade fee, never added
/// on top of it.
pub proof fn lemma_fee_split_within_trade_fee(amount_in: int, cfg: AmmConfig)
    requires
        cfg.wf(),
        amount_in >= 0,
    ensures
        0 <= protocol_fee_of(amount_in, cfg),
        0 <= fund_fee_of(amount_in, cfg),
        protocol_fee_of(amount_in, cfg) + fund_fee_of(amount_in, cfg) <= trade_fee_of(
            amount_in,
            cfg,
        ),
        0 <= trade_fee_of(amount_in, cfg) <= amount_in,
{
    let d = FEE_RATE_DENOMINATOR_VALUE as int;
    let t = trade_fee_of(amount_in, cfg);
    let p = cfg.protocol_fee_rate as int;
    let f = cfg.fund_fee_rate as int;
    lemma_rate_share_bounds(amount_in, cfg.trade_fee_rate as int);
    lemma_rate_share_bounds(t, p);
    lemma_rate_share_bounds(t, f);
    let a = t * p / d;
    let b = t * f / d;
    vstd::arithmetic::div_mod::lemma_fundamental_div_mod(t * p, d);
    vstd::arithmetic::div_mod::lemma_fundamental_div_mod(t * f, d);
    vstd::arithmetic::div_mod::lemma_mod_bound(t * p, d);
    vstd::arithmetic::div_mod::lemma_mod_bound(t * f, d);
    assert(a + b <= t) by (nonlinear_arith)
        requires
            t * p == d * a + (t * p) % d,
            t * f == d * b + (t * f) % d,
            0 <= (t * p) % d,
            0 <= (t * f) % d,
            p + f <= d,
            t >= 0,
            d > 0,
    ;
}

proof fn lemma_exchange_bounds(total_in: int, total_out: int, amount_in: int)
    requires
        total_in >= 0,
        total_out >= 0,
        amount_in >= 0,
    ensures
        0 <= exchange(total_in, total_out, amount_in) <= total_out,
        exchange(total_in, total_out, amount_in) * (total_in + amount_in) <= total_out
            * amount_in,
        total_in > 0 ==> exchange(total_in, total_out, amount_in) < total_out || total_out == 0,
{
    let s = total_in + amount_in;
    if s > 0 {
        let q = total_out * amount_in / s;
        assert(0 <= total_out * amount_in <= total_out * s) by (nonlinear_arith)
            requires
                total_out >= 0,
                0 <= amount_in <= s,
        ;
        vstd::arithmetic::div_mod::lemma_fundamental_div_mod(total_out * amount_in, s);
        vstd::arithmetic::div_mod::lemma_mod_bound(total_out * amount_in, s);
        assert(0 <= q <= total_out && q * s <= total_out * amount_in) by (nonlinear_arith)
            requires
                total_out * amount_in == s * q + (total_out * amount_in) % s,
                0 <= (total_out * amount_in) % s < s,
                0 <= total_out * amount_in <= total_out * s,
                s > 0,
        ;
        if total_in > 0 && total_out > 0 {
            assert(q < total_out) by (nonlinear_arith)
                requires
                    q * s <= total_out * amount_in,
                    s == total_in + amount_in,
                    total_in > 0,
                    total_out > 0,
                    amount_in >= 0,
            ;
        }
    }
}

/// A trade never lowers the product of the pricing reserves.
pub proof fn lemma_swap_keeps_product(total_in: int, total_out: int, amount_in: int, cfg: AmmConfig)
    requires
        cfg.wf(),
        total_in >= 0,
        total_out >= 0,
        amount_in >= 0,
    ensures
        new_source_of(total_in, amount_in, cfg) * new_destination_of(
            total_in,
            total_out,
            amount_in,
            cfg,
        ) >= total_in * total_out,
{
    lemma_fee_split_within_trade_fee(amount_in, cfg);
    let a = amount_after_fee(amount_in, cfg);
    lemma_exchange_bounds(total_in, total_out, a);
    let dy = exchange(total_in, total_out, a);
    let src = new_source_of(total_in, amount_in, cfg);
    assert(src >= total_in + a);
    assert(src * (total_out - dy) >= total_in * total_out) by (nonlinear_arith)
        requires
            src >= total_in + a,
            a >= 0,
            total_in >= 0,
            0 <= dy <= total_out,
            dy * (total_in + a) <= total_out * a,
    ;
}

/// A successful trade on a pool with a non-empty input reserve never empties
/// the output reserve.
pub proof fn lemma_swap_never_drains(total_in: int, total_out: int, amount_in: int, cfg: AmmConfig)
    requires
        cfg.wf(),
        total_in > 0,
        total_out >= 0,
        amount_in >= 0,
        !is_degenerate(total_in, total_out, amount_in, cfg),
    ensures
        new_destination_of(total_in, total_out, amount_in, cfg) > 0,
{
    lemma_fee_split_within_trade_fee(amount_in, cfg);
    lemma_exchange_bounds(total_in, total_out, amount_after_fee(amount_in, cfg));
}

/// The constant-product curve with tiered fees.
pub struct CurveCalculator;

impl CurveCalculator {
    /// Trades `source_amount` (already net of any transfer fee) against the
    /// pricing reserves; `None` exactly when the trade is degenerate.
    pub fn swap(
        source_amount: u64,
        swap_source_amount: u64,
        swap_destination_amount: u64,
        config: &AmmConfig,
    ) -> (r: Option<SwapResult>)
        requires
            config.wf(),
        ensures
            r is None <==> is_degenerate(
                swap_source_amount as int,
                swap_destination_amount as int,
                source_amount as int,
                *config,
            ),
            r matches Some(res) ==> res == curve_result(
                swap_source_amount as int,
                swap_destination_amount as int,
                source_amount as int,
                *config,
            ),
            r matches Some(res) ==> res.new_swap_source_amount == new_source_of(
                swap_source_amount as int,
                source_amount as int,
                *config,
            ) && res.new_swap_destination_amount == new_destination_of(
                swap_source_amount as int,
                swap_destination_amount as int,
                source_amount as int,
                *config,
            ) && res.protocol_fee == protocol_fee_of(source_amount as int, *config)
                && res.fund_fee == fund_fee_of(source_amount as int, *config),
    {
        let ghost cfg = *config;
        proof {
            lemma_fee_split_within_trade_fee(source_amount as int, cfg);
            lemma_exchange_bounds(
                swap_source_amount as int,
                swap_destination_amount as int,
                amount_after_fee(source_amount as int, cfg),
            );
        }
        let denominator = FEE_RATE_DENOMINATOR_VALUE as u128;
        let amount = source_amount as u128;
        let total_in = swap_source_amount as u128;
        let total_out = swap_destination_amount as u128;
        assert(amount * config.trade_fee_rate <= 0xffff_ffff_ffff_ffffu128 * 1_000_000)
            by (nonlinear_arith)
            requires
                amount <= 0xffff_ffff_ffff_ffffu128,
                config.trade_fee_rate <= 1_000_000,
        ;
        let trade_fee: u128 = amount * config.trade_fee_rate as u128 / denominator;
        assert(trade_fee * config.protocol_fee_rate <= 0xffff_ffff_ffff_ffffu128 * 1_000_000
            && trade_fee * config.fund_fee_rate <= 0xffff_ffff_ffff_ffffu128 * 1_000_000)
            by (nonlinear_arith)
            requires
                trade_fee <= 0xffff_ffff_ffff_ffffu128,
                config.protocol_fee_rate <= 1_000_000,
                config.fund_fee_rate <= 1_000_000,
        ;
        let protocol_fee: u128 = trade_fee * config.protocol_fee_rate as u128 / denominator;
        let fund_fee: u128 = trade_fee * config.fund_fee_rate as u128 / denominator;
        let amount_in_after_fee: u128 = amount - trade_fee;
        if amount == 0 || total_out == 0 {
            return None;
        }
        let pool_in: u128 = total_in + amount_in_after_fee;
        if pool_in == 0 {
            return None;
        }
        assert(total_out * amount_in_after_fee <= 0xffff_ffff_ffff_ffffu128
            * 0xffff_ffff_ffff_ffffu128) by (nonlinear_arith)
            requires
                total_out <= 0xffff_ffff_ffff_ffffu128,
                amount_in_after_fee <= 0xffff_ffff_ffff_ffffu128,
        ;
        let destination_amount_swapped: u128 = total_out * amount_in_after_fee / pool_in;
        if destination_amount_swapped == 0 {
            return None;
        }
        let new_swap_source_amount: u128 = total_in + amount - protocol_fee - fund_fee;
        let new_swap_destination_amount: u128 = total_out - destination_amount_swapped;
        Some(
            SwapResult {
                new_swap_source_amount,
                new_swap_destination_amount: new_swap_destination_amount as u64,
                source_amount_swapped: source_amount,
                destination_amount_swapped: destination_amount_swapped as u64,
                protocol_fee: protocol_fee as u64,
                fund_fee: fund_fee as u64,
            },
        )
    }
}

/// The product of the reserves before and after a trade may be compared:
/// it fits in 128 bits and does not decrease.
pub open spec fn invariant_holds(
    total_in: int,
    total_out: int,
    new_source: int,
    new_destination: int,
) -> bool {
    &&& new_source * new_destination <= u128::MAX
    &&& new_source * new_destination >= total_in * total_out
}

/// Refuses a trade whose reserve product would decrease; a product that
/// leaves 128 bits is an overflow.
pub fn check_invariant(
    total_in: u64,
    total_out: u64,
    new_source: u128,
    new_destination: u64,
) -> (r: Result<(), ErrorCode>)
    ensures
        r is Ok <==> invariant_holds(
            total_in as int,
            total_out as int,
            new_source as int,
            new_destination as int,
        ),
        r == Err::<(), ErrorCode>(ErrorCode::ArithmeticOverflow) <==> new_source * new_destination
            > u128::MAX,
        r is Err ==> r == Err::<(), ErrorCode>(ErrorCode::ArithmeticOverflow) || r == Err::<
            (),
            ErrorCode,
        >(ErrorCode::InvariantViolation),
{
    assert(total_in * total_out <= 0xffff_ffff_ffff_ffffu128 * 0xffff_ffff_ffff_ffffu128)
        by (nonlinear_arith)
        requires
            total_in <= 0xffff_ffff_ffff_ffffu64,
            total_out <= 0xffff_ffff_ffff_ffffu64,
    ;
    let constant_before: u128 = total_in as u128 * total_out as u128;
    match new_source.checked_mul(new_destination as u128) {
        None => Err(ErrorCode::ArithmeticOverflow),
        Some(constant_after) => {
            if constant_after < constant_before {
                Err(ErrorCode::InvariantViolation)
            } else {
                Ok(())
            }
        },
    }
}

} // verus!
