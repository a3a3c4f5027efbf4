use std::cell::Cell;

use walien_pool::constants::{USDC_DECIMALS, WALIEN_DECIMALS};
use walien_pool::errors::ErrorCode;
use walien_pool::instructions::Quote;
use walien_pool::pubkey::Pubkey;
use walien_pool::quote;
use walien_pool::state::GlobalConfig;
use walien_pool::utils::{calculate_swap_from_config, SwapRequest, SwapStepComputation};

fn config_default() -> GlobalConfig {
    GlobalConfig {
        admin: Pubkey::default(),
        usdc_mint: Pubkey::default(),
        walien_mint: None,
        is_sale_active: true,
        is_claim_active: false,
        bump: 0,
        liqudity: 100000 * 10u64.pow(WALIEN_DECIMALS as u32) as u128,
        initial_sqrt_price_x64: 583635577511010402034,
        tick_upper: 0,
        fee_bps: 0,
        available_for_swap_in_usdc: 0,
        possition_index: 1,
    }
}

fn never_asked(_request: SwapRequest) -> Result<SwapStepComputation, ErrorCode> {
    panic!("the engine must not be consulted")
}

#[test]
fn test_error_on_zero_liquidity() {
    let mut cfg = config_default();
    cfg.liqudity = 0;

    let amount_in = 100_000u64;

    let err = calculate_swap_from_config(&cfg, amount_in, never_asked).unwrap_err();
    assert_eq!(err, ErrorCode::LiquidityZero.into());
}

#[test]
fn test_zero_input_error() {
    let cfg = config_default();
    let err = calculate_swap_from_config(&cfg, 0, never_asked).unwrap_err();
    assert_eq!(err, ErrorCode::ZeroTradableAmount.into());
}

#[test]
fn zero_input_is_refused_before_zero_liquidity() {
    let mut cfg = config_default();
    cfg.liqudity = 0;
    let err = calculate_swap_from_config(&cfg, 0, never_asked).unwrap_err();
    assert_eq!(err, ErrorCode::ZeroTradableAmount);
}

#[test]
fn engine_is_asked_with_the_state_of_the_pool() {
    let mut cfg = config_default();
    cfg.fee_bps = 30;
    cfg.tick_upper = -61081;
    let asked = Cell::new(0u32);
    let answer = SwapStepComputation {
        amount_in: 997_000,
        amount_out: 5,
        next_price: 77,
        fee_amount: 3_000,
    };
    let r = calculate_swap_from_config(&cfg, 1_000_000, |request: SwapRequest| {
        asked.set(asked.get() + 1);
        assert_eq!(
            request,
            SwapRequest {
                amount: 1_000_000,
                fee_rate: 30,
                liquidity: 100_000_000_000_000,
                sqrt_price_current: 583635577511010402034,
                tick_upper: -61081,
                amount_specified_is_input: true,
                a_to_b: false,
            }
        );
        Ok(answer)
    });
    assert_eq!(r, Ok(answer));
    assert_eq!(asked.get(), 1);
}

#[test]
fn fee_rate_covers_every_fee_in_basis_points() {
    let mut cfg = config_default();
    cfg.fee_bps = u16::MAX;
    let seen = Cell::new(0u32);
    let _ = calculate_swap_from_config(&cfg, 1, |request: SwapRequest| {
        seen.set(request.fee_rate);
        Err(ErrorCode::MulDivOverflow)
    });
    assert_eq!(seen.get(), 65_535);
}

#[test]
fn refusal_of_the_engine_is_handed_on() {
    let cfg = config_default();
    let r = calculate_swap_from_config(&cfg, 5, |_request: SwapRequest| {
        Err(ErrorCode::MultiplicationShiftRightOverflow)
    });
    assert_eq!(r, Err(ErrorCode::MultiplicationShiftRightOverflow));
}

#[test]
fn quote_is_the_amount_out_of_the_answer() {
    let ctx = Quote { global_config_account: config_default() };
    let r = Quote::apply(&ctx, 10u64.pow(USDC_DECIMALS as u32), |_request: SwapRequest| {
        Ok(SwapStepComputation { amount_in: 1_000_000, amount_out: 998_877, next_price: 3, fee_amount: 0 })
    });
    assert_eq!(r, Ok(998_877));
}

#[test]
fn quote_twice_gives_the_same_and_changes_nothing() {
    let ctx = Quote { global_config_account: config_default() };
    let before = ctx;
    let engine = |request: SwapRequest| {
        Ok(SwapStepComputation {
            amount_in: request.amount,
            amount_out: request.amount / 2,
            next_price: request.sqrt_price_current + 1,
            fee_amount: 0,
        })
    };
    let first = Quote::apply(&ctx, 4_000, engine);
    let second = quote(&ctx, 4_000, engine);
    assert_eq!(first, Ok(2_000));
    assert_eq!(first, second);
    assert_eq!(ctx, before);
}

#[test]
fn quote_refuses_what_pricing_refuses() {
    let mut ctx = Quote { global_config_account: config_default() };
    assert_eq!(Quote::apply(&ctx, 0, never_asked), Err(ErrorCode::ZeroTradableAmount));
    ctx.global_config_account.liqudity = 0;
    assert_eq!(Quote::apply(&ctx, 9, never_asked), Err(ErrorCode::LiquidityZero));
    assert_eq!(
        Quote::apply(&ctx, 0, |_request: SwapRequest| Err(ErrorCode::DivideByZero)),
        Err(ErrorCode::ZeroTradableAmount)
    );
}

#[test]
fn quote_hands_on_the_refusal_of_the_engine() {
    let ctx = Quote { global_config_account: config_default() };
    let r = Quote::apply(&ctx, 9, |_request: SwapRequest| Err(ErrorCode::AmountCalcOverflow));
    assert_eq!(r, Err(ErrorCode::AmountCalcOverflow));
}

#[test]
fn quote_depends_on_the_curve_alone() {
    let first = Quote { global_config_account: config_default() };
    let mut other = config_default();
    other.admin = Pubkey::new_from_array([5u8; 32]);
    other.usdc_mint = Pubkey::new_from_array([6u8; 32]);
    other.walien_mint = Some(Pubkey::new_from_array([7u8; 32]));
    other.is_sale_active = false;
    other.is_claim_active = true;
    other.available_for_swap_in_usdc = 77;
    other.possition_index = 9;
    other.bump = 3;
    let second = Quote { global_config_account: other };
    let engine = |request: SwapRequest| {
        Ok(SwapStepComputation {
            amount_in: request.amount,
            amount_out: (request.liquidity % 1_000) as u64 + request.amount + request.fee_rate as u64,
            next_price: request.sqrt_price_current + 1,
            fee_amount: 0,
        })
    };
    assert_eq!(Quote::apply(&first, 4_000, engine), Quote::apply(&second, 4_000, engine));
    assert_eq!(Quote::apply(&first, 0, engine), Quote::apply(&second, 0, engine));
    let refusing = |_request: SwapRequest| Err(ErrorCode::MulDivOverflow);
    assert_eq!(Quote::apply(&first, 4_000, refusing), Quote::apply(&second, 4_000, refusing));
}
