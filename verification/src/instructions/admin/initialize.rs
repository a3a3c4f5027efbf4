//! Opening the pool.

use vstd::prelude::*;
use crate::constants::{MAX_USDC_CAP, USDC_DECIMALS};
use crate::errors::ErrorCode;
use crate::pubkey::Pubkey;
use crate::state::GlobalConfig;
use crate::token::Mint;
use crate::utils::SqrtPriceRange;

verus! {

/// The records that opening the pool reads and writes.
#[derive(Clone, Copy, Debug, PartialEq, Eq)]
pub struct Initialize {
    /// Who opens the pool, and administers it from then on.
    pub admin: Pubkey,
    /// The record that becomes the pool ledger. Whatever it holds is
    /// overwritten.
    pub global_config_account: GlobalConfig,
    /// The stable token that buyers will pay with.
    pub usdc_mint: Mint,
    /// The bump of the pool's program-derived signing authority.
    pub bump: u8,
}

impl Initialize {
    /// The reason for which the pool is not opened at `initial_sqrt_price_x64`
    /// with the bound `tick_upper` and the inventory
    /// `available_for_swap_in_usdc`, if there is one, where `initial_tick` is
    /// the tick that the pricing engine gives for the initial rate. The checks
    /// are made in this order.
    pub open spec fn refusal(
        self,
        initial_sqrt_price_x64: u128,
        tick_upper: i32,
        available_for_swap_in_usdc: u64,
        range: SqrtPriceRange,
        initial_tick: i32,
    ) -> Option<ErrorCode> {
        if self.usdc_mint.decimals != USDC_DECIMALS {
            Some(ErrorCode::InvalidUsdcDecimals)
        } else if !range.holds(initial_sqrt_price_x64) {
            Some(ErrorCode::SqrtPriceOutOfBounds)
        } else if initial_tick >= tick_upper {
            Some(ErrorCode::InvalidTickIndex)
        } else if available_for_swap_in_usdc > MAX_USDC_CAP {
            Some(ErrorCode::UsdcCapExceeded)
        } else {
            None
        }
    }

    /// The ledger of a pool that has just been opened: no token on sale yet,
    /// sale and claims inactive, and 1 as the index of the first position.
    pub open spec fn opened(
        self,
        initial_sqrt_price_x64: u128,
        tick_upper: i32,
        available_for_swap_in_usdc: u64,
        liquidity: u128,
        fee_bps: u16,
    ) -> GlobalConfig {
        GlobalConfig {
            admin: self.admin,
            usdc_mint: self.usdc_mint.key,
            walien_mint: None,
            is_sale_active: false,
            is_claim_active: false,
            available_for_swap_in_usdc,
            possition_index: 1,
            bump: self.bump,
            tick_upper,
            fee_bps,
            liqudity: liquidity,
            initial_sqrt_price_x64,
        }
    }

    /// Whether `post` and `r` are what opening the pool leaves of `self` when
    /// the engine gives `initial_tick` for the initial rate.
    pub open spec fn opens_to(
        self,
        initial_sqrt_price_x64: u128,
        tick_upper: i32,
        available_for_swap_in_usdc: u64,
        liquidity: u128,
        fee_bps: u16,
        range: SqrtPriceRange,
        initial_tick: i32,
        post: Initialize,
        r: Result<(), ErrorCode>,
    ) -> bool {
        match self.refusal(
            initial_sqrt_price_x64,
            tick_upper,
            available_for_swap_in_usdc,
            range,
            initial_tick,
        ) {
            Some(code) => r == Err::<(), ErrorCode>(code) && post == self,
            None => r is Ok && post == (Initialize {
                global_config_account: self.opened(
                    initial_sqrt_price_x64,
                    tick_upper,
                    available_for_swap_in_usdc,
                    liquidity,
                    fee_bps,
                ),
                ..self
            }),
        }
    }

    /// Whether `post` and `r` are what `apply` may leave of `self`.
    pub open spec fn applied<T: FnOnce(u128) -> i32>(
        self,
        initial_sqrt_price_x64: u128,
        tick_upper: i32,
        available_for_swap_in_usdc: u64,
        liquidity: u128,
        fee_bps: u16,
        range: SqrtPriceRange,
        tick_index_from_sqrt_price: T,
        post: Initialize,
        r: Result<(), ErrorCode>,
    ) -> bool {
        if self.usdc_mint.decimals != USDC_DECIMALS {
            r == Err::<(), ErrorCode>(ErrorCode::InvalidUsdcDecimals) && post == self
        } else if !range.holds(initial_sqrt_price_x64) {
            r == Err::<(), ErrorCode>(ErrorCode::SqrtPriceOutOfBounds) && post == self
        } else {
            exists|initial_tick: i32|
                #[trigger] call_ensures(
                    tick_index_from_sqrt_price,
                    (initial_sqrt_price_x64,),
                    initial_tick,
                ) && self.opens_to(
                    initial_sqrt_price_x64,
                    tick_upper,
                    available_for_swap_in_usdc,
                    liquidity,
                    fee_bps,
                    range,
                    initial_tick,
                    post,
                    r,
                )
        }
    }

    /// Opens the pool at the rate `initial_sqrt_price_x64`, with the curve
    /// bounded above by `tick_upper`.
    ///
    /// Refused, with nothing changed, for the first of these that holds: the
    /// stable token does not have `USDC_DECIMALS` decimal places
    /// (`InvalidUsdcDecimals`); the rate is outside `range`, the rates that
    /// the engine can work with (`SqrtPriceOutOfBounds`); the tick of the
    /// rate, for which the engine is then asked once, is not below
    /// `tick_upper` (`InvalidTickIndex`); the inventory is above
    /// `MAX_USDC_CAP` (`UsdcCapExceeded`). Otherwise every field of the ledger
    /// is written, as `opened` says, so that a pool never starts with more
    /// inventory than the ceiling allows.
    pub fn apply<T>(
        ctx: &mut Initialize,
        initial_sqrt_price_x64: u128,
        tick_upper: i32,
        available_for_swap_in_usdc: u64,
        liquidity: u128,
        fee_bps: u16,
        range: SqrtPriceRange,
        tick_index_from_sqrt_price: T,
    ) -> (r: Result<(), ErrorCode>) where T: FnOnce(u128) -> i32
        requires
            old(ctx).usdc_mint.decimals == USDC_DECIMALS && range.holds(initial_sqrt_price_x64)
                ==> call_requires(tick_index_from_sqrt_price, (initial_sqrt_price_x64,)),
        ensures
            old(ctx).applied(
                initial_sqrt_price_x64,
                tick_upper,
                available_for_swap_in_usdc,
                liquidity,
                fee_bps,
                range,
                tick_index_from_sqrt_price,
                *final(ctx),
                r,
            ),
            r is Ok ==> final(ctx).global_config_account.available_for_swap_in_usdc
                <= MAX_USDC_CAP,
            r is Err ==> *final(ctx) == *old(ctx),
    {
        if ctx.usdc_mint.decimals != USDC_DECIMALS {
            return Err(ErrorCode::InvalidUsdcDecimals);
        }
        if !range.contains(initial_sqrt_price_x64) {
            return Err(ErrorCode::SqrtPriceOutOfBounds);
        }
        let initial_tick = tick_index_from_sqrt_price(initial_sqrt_price_x64);
        if initial_tick >= tick_upper {
            return Err(ErrorCode::InvalidTickIndex);
        }
        if available_for_swap_in_usdc > MAX_USDC_CAP {
            return Err(ErrorCode::UsdcCapExceeded);
        }
        ctx.global_config_account =
        GlobalConfig {
            admin: ctx.admin,
            usdc_mint: ctx.usdc_mint.key,
            walien_mint: None,
            is_sale_active: false,
            is_claim_active: false,
            available_for_swap_in_usdc,
            possition_index: 1,
            bump: ctx.bump,
            tick_upper,
            fee_bps,
            liqudity: liquidity,
            initial_sqrt_price_x64,
        };
        Ok(())
    }
}

} // verus!
