//! The pool's side of the pricing engine's interface.
//!
//! The engine is a pure function from the state of the curve and an input
//! amount to the amounts exchanged and the rate after the trade. The pool
//! consults it as a black box: every operation that prices a purchase takes
//! the engine as an argument and is verified for whatever it answers.

use vstd::prelude::*;
use crate::errors::ErrorCode;
use crate::state::GlobalConfig;

verus! {

/// What the pricing engine is asked: one swap step against the curve.
#[derive(Clone, Copy, Debug, PartialEq, Eq)]
pub struct SwapRequest {
    /// The amount offered, in base units of the stable token.
    pub amount: u64,
    /// The fee rate.
    pub fee_rate: u32,
    /// The liquidity of the curve.
    pub liquidity: u128,
    /// The rate before the trade.
    pub sqrt_price_current: u128,
    /// The bound of the curve, which the rate moves towards.
    pub tick_upper: i32,
    /// Whether `amount` is the input of the trade (rather than the output).
    pub amount_specified_is_input: bool,
    /// The direction of the trade.
    pub a_to_b: bool,
}

/// What the pricing engine answers.
#[derive(Clone, Copy, Debug, PartialEq, Eq)]
pub struct SwapStepComputation {
    /// The part of the offered amount that the trade consumes.
    pub amount_in: u64,
    /// What the trade produces, in base units of the token on sale.
    pub amount_out: u64,
    /// The rate after the trade.
    pub next_price: u128,
    /// The fee, taken from the input side.
    pub fee_amount: u64,
}

/// The rates that the pricing engine can work with, both ends included.
#[derive(Clone, Copy, Debug, PartialEq, Eq)]
pub struct SqrtPriceRange {
    pub min_sqrt_price_x64: u128,
    pub max_sqrt_price_x64: u128,
}

impl SqrtPriceRange {
    /// Whether `sqrt_price_x64` lies in the range.
    pub open spec fn holds(self, sqrt_price_x64: u128) -> bool {
        self.min_sqrt_price_x64 <= sqrt_price_x64 <= self.max_sqrt_price_x64
    }

    /// Whether `sqrt_price_x64` lies in the range.
    pub fn contains(&self, sqrt_price_x64: u128) -> (inside: bool)
        ensures
            inside == self.holds(sqrt_price_x64),
    {
        self.min_sqrt_price_x64 <= sqrt_price_x64 && sqrt_price_x64 <= self.max_sqrt_price_x64
    }
}

/// The request that prices `amount` against the pool as it stands: the amount
/// is the input, and the trade runs towards the curve's upper bound.
pub open spec fn swap_request(cfg: GlobalConfig, amount: u64) -> SwapRequest {
    SwapRequest {
        amount,
        fee_rate: cfg.fee_bps as u32,
        liquidity: cfg.liqudity,
        sqrt_price_current: cfg.initial_sqrt_price_x64,
        tick_upper: cfg.tick_upper,
        amount_specified_is_input: true,
        a_to_b: false,
    }
}

/// The reason for which `amount` is not priced at all, if there is one:
/// nothing is offered, or the curve has no liquidity.
pub open spec fn unpriceable(cfg: GlobalConfig, amount: u64) -> Option<ErrorCode> {
    if amount == 0 {
        Some(ErrorCode::ZeroTradableAmount)
    } else if cfg.liqudity == 0 {
        Some(ErrorCode::LiquidityZero)
    } else {
        None
    }
}

/// Whether `engine` may be asked for the price of `amount`, in case the pool
/// and the amount are such that it is asked at all.
pub open spec fn may_consult<E: FnOnce(SwapRequest) -> Result<SwapStepComputation, ErrorCode>>(
    cfg: GlobalConfig,
    amount: u64,
    engine: E,
) -> bool {
    unpriceable(cfg, amount) is None ==> call_requires(engine, (swap_request(cfg, amount),))
}

/// Whether `engine` may have answered `answer` when asked for the price of
/// `amount`.
pub open spec fn answers<E: FnOnce(SwapRequest) -> Result<SwapStepComputation, ErrorCode>>(
    cfg: GlobalConfig,
    amount: u64,
    engine: E,
    answer: Result<SwapStepComputation, ErrorCode>,
) -> bool {
    call_ensures(engine, (swap_request(cfg, amount),), answer)
}

/// Prices `amount` against the pool as it stands.
///
/// Refuses a zero amount with `ZeroTradableAmount` and a pool without
/// liquidity with `LiquidityZero`, in that order and without consulting the
/// engine. Otherwise the engine is asked `swap_request(cfg, amount)` once, and
/// its answer is returned as it is.
pub fn calculate_swap_from_config<E>(cfg: &GlobalConfig, amount: u64, engine: E) -> (r: Result<
    SwapStepComputation,
    ErrorCode,
>) where E: FnOnce(SwapRequest) -> Result<SwapStepComputation, ErrorCode>
    requires
        may_consult(*cfg, amount, engine),
    ensures
        unpriceable(*cfg, amount) matches Some(code) ==> r == Err::<
            SwapStepComputation,
            ErrorCode,
        >(code),
        unpriceable(*cfg, amount) is None ==> answers(*cfg, amount, engine, r),
{
    if amount == 0 {
        return Err(ErrorCode::ZeroTradableAmount);
    }
    if cfg.liqudity == 0 {
        return Err(ErrorCode::LiquidityZero);
    }
    let request = SwapRequest {
        amount,
        fee_rate: cfg.fee_bps as u32,
        liquidity: cfg.liqudity,
        sqrt_price_current: cfg.initial_sqrt_price_x64,
        tick_upper: cfg.tick_upper,
        amount_specified_is_input: true,
        a_to_b: false,
    };
    engine(request)
}

} // verus!
