//! Opening and closing claims.

use vstd::prelude::*;
use crate::errors::ErrorCode;
use crate::state::GlobalConfig;

verus! {

/// The records that switching claims reads and writes.
#[derive(Clone, Copy, Debug, PartialEq, Eq)]
pub struct SetClaimActivity {
    pub global_config_account: GlobalConfig,
}

impl SetClaimActivity {
    /// Whether `post` and `r` are what `apply` leaves of `self`.
    pub open spec fn applied(
        self,
        claim_is_active: bool,
        post: SetClaimActivity,
        r: Result<(), ErrorCode>,
    ) -> bool {
        if self.global_config_account.walien_mint is None {
            r == Err::<(), ErrorCode>(ErrorCode::WalienIsNotSet) && post == self
        } else {
            r is Ok && post == (SetClaimActivity {
                global_config_account: GlobalConfig {
                    is_claim_active: claim_is_active,
                    ..self.global_config_account
                },
            })
        }
    }

    /// Sets whether claims are served. While no token on sale is named this
    /// is refused with `WalienIsNotSet`, and nothing changes.
    pub fn apply(ctx: &mut SetClaimActivity, claim_is_active: bool) -> (r: Result<(), ErrorCode>)
        ensures
            old(ctx).applied(claim_is_active, *final(ctx), r),
    {
        if ctx.global_config_account.walien_mint.is_none() {
            return Err(ErrorCode::WalienIsNotSet);
        }
        ctx.global_config_account.is_claim_active = claim_is_active;
        Ok(())
    }
}

} // verus!
