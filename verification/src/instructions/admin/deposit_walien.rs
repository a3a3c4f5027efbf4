//! Stocking the pool's vault with the token on sale.

use vstd::prelude::*;
use crate::errors::ErrorCode;
use crate::token::{Mint, TransferChecked};

verus! {

/// The records that a deposit reads.
#[derive(Clone, Copy, Debug, PartialEq, Eq)]
pub struct DepositWalien {
    /// The token on sale.
    pub walien_mint: Mint,
}

impl DepositWalien {
    /// The transfer that deposits `amount`.
    pub open spec fn transfer(self, amount: u64) -> TransferChecked {
        TransferChecked { amount, decimals: self.walien_mint.decimals }
    }

    /// The transfer that moves `amount` of the token on sale from the admin's
    /// account to the pool's vault, on the admin's own authority. Always
    /// succeeds; no record changes.
    pub fn apply(ctx: &DepositWalien, amount: u64) -> (r: Result<TransferChecked, ErrorCode>)
        ensures
            r == Ok::<TransferChecked, ErrorCode>(ctx.transfer(amount)),
    {
        Ok(TransferChecked { amount, decimals: ctx.walien_mint.decimals })
    }
}

} // verus!
