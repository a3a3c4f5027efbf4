//! Naming the token on sale.

use vstd::prelude::*;
use crate::constants::WALIEN_DECIMALS;
use crate::errors::ErrorCode;
use crate::state::GlobalConfig;
use crate::token::Mint;

verus! {

/// The records that naming the token on sale reads and writes.
#[derive(Clone, Copy, Debug, PartialEq, Eq)]
pub struct SetWalien {
    pub global_config_account: GlobalConfig,
    /// The token to sell.
    pub walien_mint: Mint,
}

impl SetWalien {
    /// Whether `post` and `r` are what `apply` leaves of `self`.
    pub open spec fn applied(self, post: SetWalien, r: Result<(), ErrorCode>) -> bool {
        if self.walien_mint.decimals != WALIEN_DECIMALS {
            r == Err::<(), ErrorCode>(ErrorCode::InvalidWalienDecimals) && post == self
        } else {
            r is Ok && post == (SetWalien {
                global_config_account: GlobalConfig {
                    walien_mint: Some(self.walien_mint.key),
                    ..self.global_config_account
                },
                ..self
            })
        }
    }

    /// Makes `walien_mint` the token on sale. A mint that does not have
    /// `WALIEN_DECIMALS` decimal places is refused with
    /// `InvalidWalienDecimals`, and nothing changes.
    pub fn apply(ctx: &mut SetWalien) -> (r: Result<(), ErrorCode>)
        ensures
            old(ctx).applied(*final(ctx), r),
    {
        if ctx.walien_mint.decimals != WALIEN_DECIMALS {
            return Err(ErrorCode::InvalidWalienDecimals);
        }
        ctx.global_config_account.walien_mint = Some(ctx.walien_mint.key);
        Ok(())
    }
}

} // verus!
