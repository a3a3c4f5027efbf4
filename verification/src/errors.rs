//! Why an operation is refused.

use vstd::prelude::*;
use vstd::std_specs::convert::FromSpecImpl;
use std::num::TryFromIntError;

verus! {

/// The failure codes of the pool and of the pricing engine that it consults.
/// Every failure is final for the operation that met it: nothing is retried,
/// and no record is changed.
#[derive(Clone, Copy, Debug, PartialEq, Eq, Structural, Hash)]
pub enum ErrorCode {
    // Tick and price arithmetic of the pricing engine.
    /// Invalid start tick index provided.
    InvalidStartTick,
    /// Tick-spacing is not supported.
    InvalidTickSpacing,
    /// Tick not found within tick array.
    TickNotFound,
    /// Provided tick index is either out of bounds or uninitializable.
    InvalidTickIndex,
    /// Provided sqrt price out of bounds.
    SqrtPriceOutOfBounds,
    // Liquidity arithmetic.
    /// Liquidity amount must be greater than zero.
    LiquidityZero,
    /// Liquidity amount must be less than `i64::MAX`.
    LiquidityTooHigh,
    /// Liquidity overflow.
    LiquidityOverflow,
    /// Liquidity underflow.
    LiquidityUnderflow,
    /// Tick liquidity net underflowed or overflowed.
    LiquidityNetError,
    // Plain arithmetic.
    /// Unable to divide by zero.
    DivideByZero,
    /// Unable to cast number into BigInt.
    NumberCastError,
    /// Unable to down cast number.
    NumberDownCastError,
    /// Did not meet token min.
    TokenMinSubceeded,
    /// Multiplication with shift right overflow.
    MultiplicationShiftRightOverflow,
    /// Muldiv overflow.
    MulDivOverflow,
    /// Invalid div_u256 input.
    MulDivInvalidInput,
    /// Multiplication overflow.
    MultiplicationOverflow,
    // Swap amounts and thresholds.
    /// There are no tradable amount to swap.
    ZeroTradableAmount,
    /// Amount out below minimum threshold.
    AmountOutBelowMinimum,
    /// Amount in above maximum threshold.
    AmountInAboveMaximum,
    /// Amount calculated overflows.
    AmountCalcOverflow,
    /// Amount remaining overflows.
    AmountRemainingOverflow,
    // Price limit.
    /// Provided SqrtPriceLimit not in the same direction as the swap.
    InvalidSqrtPriceLimitDirection,
    /// Exceeded token max.
    TokenMaxExceeded,
    // The sale itself.
    /// Slippage exceeded.
    SlippageExceeded,
    /// Sale not active.
    SaleNotActive,
    /// Insufficient available USDC for swap.
    InsufficientAvailableForSwap,
    /// USDC cap exceeded.
    UsdcCapExceeded,
    /// User summary underflow.
    UserSummaryUnderflow,
    /// Nothing to claim.
    NothingToClaim,
    /// Claim is not active.
    ClaimIsNotActive,
    /// Invalid Walien token account.
    InvalidWalienTokenAccount,
    /// Walien is not set.
    WalienIsNotSet,
    /// Withdrawal not allowed.
    WithdrawNotAllowed,
    /// Invalid USDC mint.
    InvalidUsdcMint,
    /// Invalid USDC decimals.
    InvalidUsdcDecimals,
    /// Invalid Walien decimals.
    InvalidWalienDecimals,
}

impl From<TryFromIntError> for ErrorCode {
    /// A number that does not fit the type it is converted to is a
    /// `NumberCastError`.
    fn from(_e: TryFromIntError) -> (code: ErrorCode) {
        ErrorCode::NumberCastError
    }
}

impl FromSpecImpl<TryFromIntError> for ErrorCode {
    open spec fn obeys_from_spec() -> bool {
        true
    }

    open spec fn from_spec(_e: TryFromIntError) -> ErrorCode {
        ErrorCode::NumberCastError
    }
}

/// Why the bytes of a token account could not be decoded.
#[derive(Clone, Copy, Debug, PartialEq, Eq, Structural, Hash)]
pub enum UnpackError {
    /// The bytes have the wrong length, or a field holds a value that the
    /// layout does not allow.
    InvalidAccountData,
    /// The bytes decode, but the account was never initialized.
    UninitializedAccount,
}

/// The failure of an operation that reads a token account: one of the pool's
/// codes, or the reason for which the account's bytes could not be decoded.
#[derive(Clone, Copy, Debug, PartialEq, Eq, Structural, Hash)]
pub enum Error {
    Code(ErrorCode),
    Unpack(UnpackError),
}

impl From<ErrorCode> for Error {
    /// One of the pool's codes, as the failure of an operation.
    fn from(code: ErrorCode) -> (error: Error) {
        Error::Code(code)
    }
}

impl FromSpecImpl<ErrorCode> for Error {
    open spec fn obeys_from_spec() -> bool {
        true
    }

    open spec fn from_spec(code: ErrorCode) -> Error {
        Error::Code(code)
    }
}

} // verus!
