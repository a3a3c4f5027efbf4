//! The operations of the pool, each on the records that it names.

pub mod admin;
pub mod refund;
pub mod user;

pub use admin::{
    DepositWalien, Initialize, RollbackPosition, SetClaimActivity, SetSaleActivity, SetWalien,
    TransferAdminAuthority, WithdrawWalien,
};
pub use refund::RefundReceipt;
pub use user::{Buy, BuyReceipt, Claim, ClaimReceipt, Quote, WithdrawUSDC};
