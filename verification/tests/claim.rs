use anchor_lang::solana_program::program_option::COption;
use anchor_lang::solana_program::program_pack::Pack;
use anchor_spl::token::spl_token::state::{Account, AccountState};

use walien_pool::claim;
use walien_pool::errors::{Error, ErrorCode, UnpackError};
use walien_pool::events::ClaimEvent;
use walien_pool::instructions::{Buy, Claim, ClaimReceipt};
use walien_pool::pubkey::Pubkey;
use walien_pool::state::{GlobalConfig, UserPosition, UserSummary};
use walien_pool::token::UncheckedAccount;
use walien_pool::utils::{SwapRequest, SwapStepComputation};

fn key(byte: u8) -> Pubkey {
    Pubkey::new_from_array([byte; 32])
}

const ADMIN: u8 = 9;
const OWNER: u8 = 1;
const CALLER: u8 = 3;
const WALIEN: u8 = 7;
const TOKEN_PROGRAM: u8 = 6;
const SYSTEM_PROGRAM: u8 = 0;

fn pool() -> GlobalConfig {
    GlobalConfig {
        admin: key(ADMIN),
        usdc_mint: key(8),
        walien_mint: Some(key(WALIEN)),
        is_sale_active: true,
        is_claim_active: true,
        available_for_swap_in_usdc: 50_000_000_000,
        possition_index: 5,
        bump: 254,
        tick_upper: -61081,
        fee_bps: 0,
        liqudity: 106167919507750,
        initial_sqrt_price_x64: 18446744073709552,
    }
}

fn no_account_yet() -> UncheckedAccount {
    UncheckedAccount { owner: key(SYSTEM_PROGRAM), data: Vec::new() }
}

fn packed(mint: u8, owner: u8, state: AccountState) -> Vec<u8> {
    let account = Account {
        mint: anchor_lang::prelude::Pubkey::new_from_array([mint; 32]),
        owner: anchor_lang::prelude::Pubkey::new_from_array([owner; 32]),
        amount: 12_345,
        delegate: COption::Some(anchor_lang::prelude::Pubkey::new_from_array([44; 32])),
        state,
        is_native: COption::None,
        delegated_amount: 5,
        close_authority: COption::None,
    };
    let mut data = vec![0u8; Account::LEN];
    account.pack_into_slice(&mut data);
    data
}

fn token_account(mint: u8, owner: u8) -> UncheckedAccount {
    UncheckedAccount { owner: key(TOKEN_PROGRAM), data: packed(mint, owner, AccountState::Initialized) }
}

fn open_claim(destination: UncheckedAccount) -> Claim {
    Claim {
        global_config_account: pool(),
        caller: key(CALLER),
        user_account: UserPosition {
            authority: key(OWNER),
            index: 4,
            usdc_spent: 1_000_000,
            walien_allocation: 987_654_321,
            last_buy_timestamp: 77,
        },
        user_account_key: key(2),
        user_summary: UserSummary {
            authority: key(OWNER),
            total_usdc_locked: 1_500_000,
            total_walien_alloc: 1_000_000_000,
            last_buy_timestamp: 77,
            global_index_position: 4,
            index_position: 2,
        },
        walien_mint: key(WALIEN),
        user_walien_token_account: destination,
        token_program: key(TOKEN_PROGRAM),
    }
}

fn refused(ctx: Claim, error: Error) {
    let mut after = ctx.clone();
    assert_eq!(Claim::apply(&mut after), Err(error));
    assert_eq!(after, ctx);
}

#[test]
fn claim_round_trip() {
    let mut purchase = Buy {
        global_config_account: GlobalConfig { possition_index: 1, ..pool() },
        user: key(OWNER),
        user_account: UserPosition::empty(),
        user_account_key: key(2),
        user_summary: UserSummary::empty(),
    };
    let receipt = Buy::apply(&mut purchase, 1_000_000, 1, 77, |request: SwapRequest| {
        assert_eq!(request.liquidity, 106167919507750);
        assert_eq!(request.tick_upper, -61081);
        assert_eq!(request.sqrt_price_current, 18446744073709552);
        assert_eq!(request.fee_rate, 0);
        assert_eq!(request.amount, 1_000_000);
        Ok(SwapStepComputation {
            amount_in: 1_000_000,
            amount_out: 999_990_581_043,
            next_price: 18446917824350604,
            fee_amount: 0,
        })
    })
    .unwrap();
    let x = purchase.user_account.usdc_spent;
    let y = purchase.user_account.walien_allocation;
    assert_eq!(x, 1_000_000);
    assert_eq!(y, 999_990_581_043);
    assert_eq!(receipt.transfer_amount, x);

    let mut ctx = Claim {
        global_config_account: purchase.global_config_account,
        caller: key(OWNER),
        user_account: purchase.user_account,
        user_account_key: key(2),
        user_summary: purchase.user_summary,
        walien_mint: key(WALIEN),
        user_walien_token_account: no_account_yet(),
        token_program: key(TOKEN_PROGRAM),
    };
    let receipt = claim(&mut ctx).unwrap();
    assert_eq!(receipt.walien_amount, y);
    assert_eq!(receipt.usdc_amount, x);
    assert_eq!(receipt.event.position_index, 1);
    assert_eq!(receipt.event.walien_amount, y);
    assert!(receipt.close_user_summary);
    assert_eq!(ctx.user_summary.total_usdc_locked, 0);
    assert_eq!(ctx.user_summary.total_walien_alloc, 0);
    assert_eq!(ctx.user_account.walien_allocation, 0);
    assert_eq!(ctx.global_config_account, purchase.global_config_account);

    let after_first = ctx.clone();
    assert_eq!(claim(&mut ctx), Err(Error::Code(ErrorCode::NothingToClaim)));
    assert_eq!(ctx, after_first);
}

#[test]
fn claim_into_a_new_account_is_paid_back_to_the_caller() {
    let mut ctx = open_claim(no_account_yet());
    let before = ctx.clone();
    let r = Claim::apply(&mut ctx);
    assert_eq!(
        r,
        Ok(ClaimReceipt {
            create_token_account: true,
            walien_amount: 987_654_321,
            usdc_amount: 1_000_000,
            event: ClaimEvent {
                caller: key(CALLER),
                user: key(OWNER),
                user_position: key(2),
                position_index: 4,
                walien_amount: 987_654_321,
            },
            recipient: key(CALLER),
            close_user_summary: false,
        })
    );
    assert_eq!(
        ctx,
        Claim {
            user_account: UserPosition { walien_allocation: 0, ..before.user_account },
            user_summary: UserSummary {
                total_usdc_locked: 500_000,
                total_walien_alloc: 12_345_679,
                ..before.user_summary
            },
            ..before
        }
    );
}

#[test]
fn claim_into_the_owners_account_is_paid_back_to_the_owner() {
    let mut ctx = open_claim(token_account(WALIEN, OWNER));
    let receipt = Claim::apply(&mut ctx).unwrap();
    assert!(!receipt.create_token_account);
    assert_eq!(receipt.recipient, key(OWNER));
    assert_eq!(receipt.walien_amount, 987_654_321);
    assert_eq!(receipt.usdc_amount, 1_000_000);
}

#[test]
fn claim_into_a_frozen_account_of_the_owner_is_served() {
    let destination = UncheckedAccount {
        owner: key(TOKEN_PROGRAM),
        data: packed(WALIEN, OWNER, AccountState::Frozen),
    };
    let mut ctx = open_claim(destination);
    assert!(Claim::apply(&mut ctx).is_ok());
}

#[test]
fn claim_while_claims_are_closed_is_refused() {
    let mut ctx = open_claim(no_account_yet());
    ctx.global_config_account.is_claim_active = false;
    refused(ctx.clone(), Error::Code(ErrorCode::ClaimIsNotActive));
    ctx.user_account.walien_allocation = 0;
    refused(ctx, ErrorCode::ClaimIsNotActive.into());
}

#[test]
fn claim_of_nothing_is_refused() {
    let mut ctx = open_claim(token_account(8, OWNER));
    ctx.user_account.walien_allocation = 0;
    refused(ctx, Error::Code(ErrorCode::NothingToClaim));
}

#[test]
fn claim_into_an_account_of_another_mint_is_refused() {
    refused(
        open_claim(token_account(8, OWNER)),
        Error::Code(ErrorCode::InvalidWalienTokenAccount),
    );
}

#[test]
fn claim_into_an_account_of_another_owner_is_refused() {
    refused(
        open_claim(token_account(WALIEN, CALLER)),
        Error::Code(ErrorCode::InvalidWalienTokenAccount),
    );
}

#[test]
fn claim_into_an_account_that_differs_in_one_byte_is_refused() {
    let mut destination = token_account(WALIEN, OWNER);
    destination.data[31] ^= 1;
    refused(open_claim(destination), Error::Code(ErrorCode::InvalidWalienTokenAccount));
    let mut destination = token_account(WALIEN, OWNER);
    destination.data[63] ^= 0x80;
    refused(open_claim(destination), Error::Code(ErrorCode::InvalidWalienTokenAccount));
    let mut destination = token_account(WALIEN, OWNER);
    destination.data[64] ^= 0xff;
    let mut ctx = open_claim(destination);
    assert!(Claim::apply(&mut ctx).is_ok());
}

#[test]
fn claim_into_an_uninitialized_account_is_refused() {
    let destination = UncheckedAccount {
        owner: key(TOKEN_PROGRAM),
        data: packed(WALIEN, OWNER, AccountState::Uninitialized),
    };
    refused(open_claim(destination), Error::Unpack(UnpackError::UninitializedAccount));
    let zeros = UncheckedAccount { owner: key(TOKEN_PROGRAM), data: vec![0u8; 165] };
    refused(open_claim(zeros), Error::Unpack(UnpackError::UninitializedAccount));
}

#[test]
fn claim_into_an_account_of_the_wrong_length_is_refused() {
    for len in [1usize, 82, 164, 166, 355] {
        let destination = UncheckedAccount { owner: key(TOKEN_PROGRAM), data: vec![1u8; len] };
        refused(open_claim(destination), Error::Unpack(UnpackError::InvalidAccountData));
    }
    let mut data = packed(WALIEN, OWNER, AccountState::Initialized);
    data.push(0);
    let destination = UncheckedAccount { owner: key(TOKEN_PROGRAM), data };
    refused(open_claim(destination), Error::Unpack(UnpackError::InvalidAccountData));
}

#[test]
fn claim_into_an_account_with_a_field_out_of_range_is_refused() {
    for (at, value) in [
        (72usize, 2u8),
        (73, 1),
        (74, 1),
        (75, 1),
        (108, 3),
        (108, 255),
        (109, 2),
        (110, 1),
        (112, 9),
        (129, 2),
        (130, 1),
        (132, 1),
    ] {
        let mut data = packed(WALIEN, OWNER, AccountState::Initialized);
        data[at] = value;
        let destination = UncheckedAccount { owner: key(TOKEN_PROGRAM), data };
        refused(open_claim(destination), Error::Unpack(UnpackError::InvalidAccountData));
    }
    let mut data = packed(WALIEN, OWNER, AccountState::Uninitialized);
    data[129] = 2;
    let destination = UncheckedAccount { owner: key(TOKEN_PROGRAM), data };
    refused(open_claim(destination), Error::Unpack(UnpackError::InvalidAccountData));
}

#[test]
fn claim_accepts_every_valid_tag() {
    for at in [72usize, 109, 129] {
        for value in [0u8, 1] {
            let mut data = packed(WALIEN, OWNER, AccountState::Initialized);
            data[at] = value;
            let destination = UncheckedAccount { owner: key(TOKEN_PROGRAM), data };
            let mut ctx = open_claim(destination);
            assert!(Claim::apply(&mut ctx).is_ok());
        }
    }
}

#[test]
fn claim_treats_an_account_of_another_program_as_new() {
    let destination = UncheckedAccount { owner: key(SYSTEM_PROGRAM), data: vec![1u8; 10] };
    let mut ctx = open_claim(destination);
    let receipt = Claim::apply(&mut ctx).unwrap();
    assert!(receipt.create_token_account);
    assert_eq!(receipt.recipient, key(CALLER));
}

#[test]
fn claim_treats_an_empty_account_of_the_token_program_as_new() {
    let destination = UncheckedAccount { owner: key(TOKEN_PROGRAM), data: Vec::new() };
    let mut ctx = open_claim(destination);
    let receipt = Claim::apply(&mut ctx).unwrap();
    assert!(receipt.create_token_account);
    assert_eq!(receipt.recipient, key(CALLER));
}

#[test]
fn claim_from_a_summary_that_holds_too_little_is_refused() {
    let mut ctx = open_claim(no_account_yet());
    ctx.user_summary.total_walien_alloc = 987_654_320;
    refused(ctx, Error::Code(ErrorCode::UserSummaryUnderflow));
    let mut ctx = open_claim(token_account(WALIEN, OWNER));
    ctx.user_summary.total_usdc_locked = 999_999;
    refused(ctx, Error::Code(ErrorCode::UserSummaryUnderflow));
}

#[test]
fn claim_of_the_last_position_closes_the_summary() {
    let mut ctx = open_claim(no_account_yet());
    ctx.user_summary.total_usdc_locked = 1_000_000;
    ctx.user_summary.total_walien_alloc = 987_654_321;
    let receipt = Claim::apply(&mut ctx).unwrap();
    assert!(receipt.close_user_summary);
    let mut ctx = open_claim(no_account_yet());
    ctx.user_summary.total_usdc_locked = 1_000_001;
    ctx.user_summary.total_walien_alloc = 987_654_321;
    let receipt = Claim::apply(&mut ctx).unwrap();
    assert!(!receipt.close_user_summary);
    assert_eq!(ctx.user_summary.total_usdc_locked, 1);
}

#[test]
fn claim_is_made_for_the_owner_that_the_position_names() {
    let mut ctx = open_claim(token_account(WALIEN, CALLER));
    ctx.user_account.authority = key(CALLER);
    let receipt = Claim::apply(&mut ctx).unwrap();
    assert_eq!(receipt.event.user, key(CALLER));
    assert_eq!(receipt.event.caller, key(CALLER));
    assert_eq!(receipt.recipient, key(CALLER));
}
