//! A single-pool token sale: buyers pay a stable token for an allocation of
//! the sale token at a price set by a one-sided liquidity curve, and receive
//! the allocation later by a claim, or their payment back by a withdrawal.
//!
//! Every operation works on the records that it is handed and answers with
//! what the custodian of the funds has to do. The pricing engine is consulted
//! as a black box. Whenever an operation fails, the records are as they were.

pub mod constants;
pub mod errors;
pub mod events;
pub mod instructions;
pub mod laws;
pub mod pubkey;
pub mod state;
pub mod token;
pub mod utils;

use vstd::prelude::*;
use errors::{Error, ErrorCode};
use instructions::{
    Buy, BuyReceipt, Claim, ClaimReceipt, DepositWalien, Initialize, Quote, RefundReceipt,
    RollbackPosition, SetClaimActivity, SetSaleActivity, SetWalien, TransferAdminAuthority,
    WithdrawUSDC, WithdrawWalien,
};
use token::TransferChecked;
use utils::{may_consult, SqrtPriceRange, SwapRequest, SwapStepComputation};

verus! {

/// Opens the pool; see `Initialize::apply`.
pub fn initialize<T>(
    ctx: &mut Initialize,
    initial_sqrt_price_x64: u128,
    tick_upper: i32,
    available_for_swap_in_usdc: u64,
    liquidity: u128,
    fee_bps: u16,
    range: SqrtPriceRange,
    tick_index_from_sqrt_price: T,
) -> (r: Result<(), ErrorCode>) where T: FnOnce(u128) -> i32
    requires
        old(ctx).usdc_mint.decimals == constants::USDC_DECIMALS && range.holds(
            initial_sqrt_price_x64,
        ) ==> call_requires(tick_index_from_sqrt_price, (initial_sqrt_price_x64,)),
    ensures
        old(ctx).applied(
            initial_sqrt_price_x64,
            tick_upper,
            available_for_swap_in_usdc,
            liquidity,
            fee_bps,
            range,
            tick_index_from_sqrt_price,
            *final(ctx),
            r,
        ),
        r is Ok ==> final(ctx).global_config_account.available_for_swap_in_usdc
            <= constants::MAX_USDC_CAP,
        r is Err ==> *final(ctx) == *old(ctx),
{
    Initialize::apply(
        ctx,
        initial_sqrt_price_x64,
        tick_upper,
        available_for_swap_in_usdc,
        liquidity,
        fee_bps,
        range,
        tick_index_from_sqrt_price,
    )
}

/// Names the token on sale; see `SetWalien::apply`.
pub fn set_walien(ctx: &mut SetWalien) -> (r: Result<(), ErrorCode>)
    ensures
        old(ctx).applied(*final(ctx), r),
{
    SetWalien::apply(ctx)
}

/// Stocks the vault with the token on sale; see `DepositWalien::apply`.
pub fn deposit_walien(ctx: &DepositWalien, amount: u64) -> (r: Result<TransferChecked, ErrorCode>)
    ensures
        r == Ok::<TransferChecked, ErrorCode>(ctx.transfer(amount)),
{
    DepositWalien::apply(ctx, amount)
}

/// Opens or closes the sale; see `SetSaleActivity::apply`.
pub fn set_sale_activity(ctx: &mut SetSaleActivity, is_active: bool) -> (r: Result<(), ErrorCode>)
    ensures
        old(ctx).applied(is_active, *final(ctx), r),
{
    SetSaleActivity::apply(ctx, is_active)
}

/// Opens or closes claims; see `SetClaimActivity::apply`.
pub fn set_claim_activity(ctx: &mut SetClaimActivity, is_active: bool) -> (r: Result<
    (),
    ErrorCode,
>)
    ensures
        old(ctx).applied(is_active, *final(ctx), r),
{
    SetClaimActivity::apply(ctx, is_active)
}

/// Hands the pool to another admin; see `TransferAdminAuthority::apply`.
pub fn transfer_admin_authority(ctx: &mut TransferAdminAuthority) -> (r: Result<(), ErrorCode>)
    ensures
        old(ctx).applied(*final(ctx), r),
{
    TransferAdminAuthority::apply(ctx)
}

/// Prices a purchase without making it; see `Quote::apply`.
pub fn quote<E>(ctx: &Quote, amount: u64, engine: E) -> (r: Result<u64, ErrorCode>) where
    E: FnOnce(SwapRequest) -> Result<SwapStepComputation, ErrorCode>,

    requires
        may_consult(ctx.global_config_account, amount, engine),
    ensures
        ctx.applied(amount, engine, r),
{
    Quote::apply(ctx, amount, engine)
}

/// Buys; see `Buy::apply`.
pub fn buy<E>(ctx: &mut Buy, amount: u64, min_tokens_out: u64, now_ts: i64, engine: E) -> (r:
    Result<BuyReceipt, ErrorCode>) where
    E: FnOnce(SwapRequest) -> Result<SwapStepComputation, ErrorCode>,

    requires
        old(ctx).global_config_account.is_sale_active ==> may_consult(
            old(ctx).global_config_account,
            amount,
            engine,
        ),
    ensures
        old(ctx).applied(amount, min_tokens_out, now_ts, engine, *final(ctx), r),
        r is Err ==> *final(ctx) == *old(ctx),
{
    Buy::apply(ctx, amount, min_tokens_out, now_ts, engine)
}

/// Delivers a position; see `Claim::apply`.
pub fn claim(ctx: &mut Claim) -> (r: Result<ClaimReceipt, Error>)
    ensures
        old(ctx).applied(*final(ctx), r),
        r is Err ==> *final(ctx) == *old(ctx),
{
    Claim::apply(ctx)
}

/// Cancels a position for its owner; see `WithdrawUSDC::apply`.
pub fn withdraw_usdc(ctx: &mut WithdrawUSDC) -> (r: Result<RefundReceipt, ErrorCode>)
    ensures
        old(ctx).applied(*final(ctx), r),
        r is Err ==> *final(ctx) == *old(ctx),
{
    WithdrawUSDC::apply(ctx)
}

/// Cancels a position for the admin; see `RollbackPosition::apply`.
pub fn rollback_position(ctx: &mut RollbackPosition) -> (r: Result<RefundReceipt, ErrorCode>)
    ensures
        old(ctx).applied(*final(ctx), r),
        r is Err ==> *final(ctx) == *old(ctx),
{
    RollbackPosition::apply(ctx)
}

/// Empties the vault of the token on sale; see `WithdrawWalien::apply`.
pub fn withdraw_walien(ctx: &WithdrawWalien) -> (r: Result<TransferChecked, ErrorCode>)
    ensures
        r == Ok::<TransferChecked, ErrorCode>(ctx.transfer()),
{
    WithdrawWalien::apply(ctx)
}

} // verus!
