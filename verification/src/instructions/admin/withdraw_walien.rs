//! Emptying the pool's vault of the token on sale.

use vstd::prelude::*;
use crate::errors::ErrorCode;
use crate::token::{Mint, TokenAccount, TransferChecked};

verus! {

/// The records that emptying the vault reads.
#[derive(Clone, Copy, Debug, PartialEq, Eq)]
pub struct WithdrawWalien {
    /// The token on sale.
    pub walien_mint: Mint,
    /// The pool's vault of the token on sale.
    pub program_walien_token_account: TokenAccount,
}

impl WithdrawWalien {
    /// The transfer that empties the vault.
    pub open spec fn transfer(self) -> TransferChecked {
        TransferChecked {
            amount: self.program_walien_token_account.amount,
            decimals: self.walien_mint.decimals,
        }
    }

    /// The transfer that moves everything the vault holds to the admin's
    /// account, on the pool's authority. Always succeeds; no record changes.
    pub fn apply(ctx: &WithdrawWalien) -> (r: Result<TransferChecked, ErrorCode>)
        ensures
            r == Ok::<TransferChecked, ErrorCode>(ctx.transfer()),
    {
        Ok(
            TransferChecked {
                amount: ctx.program_walien_token_account.amount,
                decimals: ctx.walien_mint.decimals,
            },
        )
    }
}

} // verus!
