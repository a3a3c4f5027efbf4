//! Opening and closing the sale.

use vstd::prelude::*;
use crate::errors::ErrorCode;
use crate::state::GlobalConfig;

verus! {

/// The records that switching the sale reads and writes.
#[derive(Clone, Copy, Debug, PartialEq, Eq)]
pub struct SetSaleActivity {
    pub global_config_account: GlobalConfig,
}

impl SetSaleActivity {
    /// Whether `post` and `r` are what `apply` leaves of `self`.
    pub open spec fn applied(
        self,
        sale_is_active: bool,
        post: SetSaleActivity,
        r: Result<(), ErrorCode>,
    ) -> bool {
        r is Ok && post == (SetSaleActivity {
            global_config_account: GlobalConfig {
                is_sale_active: sale_is_active,
                ..self.global_config_account
            },
        })
    }

    /// Sets whether purchases are served. Always succeeds.
    pub fn apply(ctx: &mut SetSaleActivity, sale_is_active: bool) -> (r: Result<(), ErrorCode>)
        ensures
            old(ctx).applied(sale_is_active, *final(ctx), r),
    {
        ctx.global_config_account.is_sale_active = sale_is_active;
        Ok(())
    }
}

} // verus!
