//! Handing the pool to another admin.

use vstd::prelude::*;
use crate::errors::ErrorCode;
use crate::pubkey::Pubkey;
use crate::state::GlobalConfig;

verus! {

/// The records that a change of admin reads and writes.
#[derive(Clone, Copy, Debug, PartialEq, Eq)]
pub struct TransferAdminAuthority {
    pub global_config_account: GlobalConfig,
    /// Who administers the pool from now on.
    pub new_admin_authority: Pubkey,
}

impl TransferAdminAuthority {
    /// Whether `post` and `r` are what `apply` leaves of `self`.
    pub open spec fn applied(self, post: TransferAdminAuthority, r: Result<(), ErrorCode>) -> bool {
        r is Ok && post == (TransferAdminAuthority {
            global_config_account: GlobalConfig {
                admin: self.new_admin_authority,
                ..self.global_config_account
            },
            ..self
        })
    }

    /// Makes `new_admin_authority` the admin. Always succeeds.
    pub fn apply(ctx: &mut TransferAdminAuthority) -> (r: Result<(), ErrorCode>)
        ensures
            old(ctx).applied(*final(ctx), r),
    {
        ctx.global_config_account.admin = ctx.new_admin_authority;
        Ok(())
    }
}

} // verus!
