//! What buyers, and callers on their behalf, may ask of the pool.

pub mod buy;
pub mod claim;
pub mod quote;
pub mod withdraw_usdc;

pub use buy::{Buy, BuyReceipt};
pub use claim::{Claim, ClaimReceipt};
pub use quote::Quote;
pub use withdraw_usdc::WithdrawUSDC;
