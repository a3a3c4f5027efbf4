use walien_pool::constants::{MAX_USDC_CAP, USDC_DECIMALS, USDC_UNIT, WALIEN_DECIMALS};
use walien_pool::errors::{Error, ErrorCode};
use walien_pool::pubkey::{Pubkey, PUBKEY_BYTES};
use walien_pool::state::{UserPosition, UserSummary};
use walien_pool::token::TOKEN_ACCOUNT_LEN;
use walien_pool::utils::SqrtPriceRange;

#[test]
fn constants_agree() {
    assert_eq!(USDC_DECIMALS, 6);
    assert_eq!(WALIEN_DECIMALS, 9);
    assert_eq!(USDC_UNIT, 10u64.pow(USDC_DECIMALS as u32));
    assert_eq!(Some(MAX_USDC_CAP), 100_000u64.checked_mul(10u64.pow(USDC_DECIMALS as u32)));
    assert_eq!(PUBKEY_BYTES, 32);
    assert_eq!(TOKEN_ACCOUNT_LEN, 165);
}

#[test]
fn pubkeys_are_equal_when_their_bytes_are() {
    let mut bytes = [0u8; 32];
    for (i, byte) in bytes.iter_mut().enumerate() {
        *byte = i as u8;
    }
    let a = Pubkey::new_from_array(bytes);
    assert_eq!(a.to_bytes(), bytes);
    assert!(a == Pubkey::new_from_array(bytes));
    for i in 0..32 {
        let mut other = bytes;
        other[i] ^= 1;
        assert!(a != Pubkey::new_from_array(other));
    }
}

#[test]
fn default_pubkey_is_all_zero() {
    assert_eq!(Pubkey::default().to_bytes(), [0u8; 32]);
    assert!(Pubkey::default() == Pubkey::new_from_array([0u8; 32]));
}

#[test]
fn empty_records_are_all_zero() {
    assert_eq!(
        UserPosition::empty(),
        UserPosition {
            authority: Pubkey::default(),
            index: 0,
            usdc_spent: 0,
            walien_allocation: 0,
            last_buy_timestamp: 0,
        }
    );
    assert_eq!(
        UserSummary::empty(),
        UserSummary {
            authority: Pubkey::default(),
            total_usdc_locked: 0,
            total_walien_alloc: 0,
            last_buy_timestamp: 0,
            global_index_position: 0,
            index_position: 0,
        }
    );
}

#[test]
fn summary_credit_adds_and_counts() {
    let buyer = Pubkey::new_from_array([1u8; 32]);
    let mut summary = UserSummary::empty();
    assert_eq!(summary.credit(buyer, 10, 20, 7, 100), Ok(()));
    assert_eq!(summary.credit(buyer, 1, 2, 9, 101), Ok(()));
    assert_eq!(
        summary,
        UserSummary {
            authority: buyer,
            total_usdc_locked: 11,
            total_walien_alloc: 22,
            last_buy_timestamp: 101,
            global_index_position: 9,
            index_position: 2,
        }
    );
}

#[test]
fn summary_credit_refuses_overflow() {
    let buyer = Pubkey::new_from_array([1u8; 32]);
    let mut summary = UserSummary { total_usdc_locked: u64::MAX, ..UserSummary::empty() };
    let before = summary;
    assert_eq!(summary.credit(buyer, 1, 0, 7, 100), Err(ErrorCode::AmountCalcOverflow));
    assert_eq!(summary, before);
    assert_eq!(summary.credit(buyer, 0, 5, 7, 100), Ok(()));
    assert_eq!(summary.total_usdc_locked, u64::MAX);
}

#[test]
fn summary_debit_subtracts_and_reports_when_settled() {
    let mut summary = UserSummary {
        total_usdc_locked: 30,
        total_walien_alloc: 60,
        ..UserSummary::empty()
    };
    assert_eq!(summary.debit(10, 20), Ok(false));
    assert_eq!(summary.debit(20, 39), Ok(false));
    assert_eq!(summary.debit(0, 1), Ok(true));
    assert_eq!(summary.total_usdc_locked, 0);
    assert_eq!(summary.total_walien_alloc, 0);
}

#[test]
fn summary_debit_refuses_underflow() {
    let mut summary = UserSummary {
        total_usdc_locked: 30,
        total_walien_alloc: 60,
        ..UserSummary::empty()
    };
    let before = summary;
    assert_eq!(summary.debit(31, 0), Err(ErrorCode::UserSummaryUnderflow));
    assert_eq!(summary.debit(0, 61), Err(ErrorCode::UserSummaryUnderflow));
    assert_eq!(summary.debit(u64::MAX, u64::MAX), Err(ErrorCode::UserSummaryUnderflow));
    assert_eq!(summary, before);
}

#[test]
fn failed_conversion_is_a_number_cast_error() {
    let failure = u8::try_from(300u32).unwrap_err();
    assert_eq!(ErrorCode::from(failure), ErrorCode::NumberCastError);
}

#[test]
fn code_converts_into_error() {
    assert_eq!(Error::from(ErrorCode::SaleNotActive), Error::Code(ErrorCode::SaleNotActive));
    let error: Error = ErrorCode::NothingToClaim.into();
    assert_eq!(error, Error::Code(ErrorCode::NothingToClaim));
}

#[test]
fn range_contains_its_ends() {
    let range = SqrtPriceRange { min_sqrt_price_x64: 5, max_sqrt_price_x64: 9 };
    assert!(!range.contains(4));
    assert!(range.contains(5));
    assert!(range.contains(9));
    assert!(!range.contains(10));
}
