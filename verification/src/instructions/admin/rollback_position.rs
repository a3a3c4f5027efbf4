//! Rolling back: the admin cancels a position of any buyer, and the payment
//! goes back to that buyer.

use vstd::prelude::*;
use crate::errors::ErrorCode;
use crate::instructions::refund::{refund, refund_refusal, restocked, voided, RefundReceipt};
use crate::state::{GlobalConfig, UserPosition, UserSummary};
use crate::token::TokenAccount;

verus! {

/// The records that a rollback reads and writes.
#[derive(Clone, Copy, Debug, PartialEq, Eq)]
pub struct RollbackPosition {
    pub global_config_account: GlobalConfig,
    /// The position to cancel, which the admin has chosen. Its `authority`
    /// is the owner.
    pub user_account: UserPosition,
    /// The summary of the position's owner.
    pub user_summary: UserSummary,
    /// The pool's vault of the stable token.
    pub program_usdc_token_account: TokenAccount,
}

impl RollbackPosition {
    /// The reason for which the rollback is refused, if there is one.
    pub open spec fn refusal(self) -> Option<ErrorCode> {
        refund_refusal(
            self.global_config_account,
            self.user_account,
            self.user_summary,
            self.program_usdc_token_account,
        )
    }

    /// The records after an accepted rollback.
    pub open spec fn rolled_back(self) -> RollbackPosition {
        RollbackPosition {
            global_config_account: restocked(self.global_config_account, self.user_account),
            user_account: voided(self.user_account),
            user_summary: self.user_summary.debited(
                self.user_account.usdc_spent,
                self.user_account.walien_allocation,
            ),
            ..self
        }
    }

    /// What an accepted rollback asks of the custodian: the payment goes back
    /// to the owner, who is also refunded the storage cost.
    pub open spec fn receipt(self) -> RefundReceipt {
        RefundReceipt {
            usdc_amount: self.user_account.usdc_spent,
            recipient: self.user_account.authority,
            close_user_summary: self.rolled_back().user_summary.is_settled(),
        }
    }

    /// Whether `post` and `r` are what `apply` leaves of `self`: refused and
    /// nothing changed, or accepted and rolled back.
    pub open spec fn applied(
        self,
        post: RollbackPosition,
        r: Result<RefundReceipt, ErrorCode>,
    ) -> bool {
        match self.refusal() {
            Some(code) => r == Err::<RefundReceipt, ErrorCode>(code) && post == self,
            None => r == Ok::<RefundReceipt, ErrorCode>(self.receipt()) && post
                == self.rolled_back(),
        }
    }

    /// Cancels the position on the owner's behalf.
    ///
    /// Refused and accepted exactly as a withdrawal of the same position is;
    /// the refund and the storage cost go to the owner.
    pub fn apply(ctx: &mut RollbackPosition) -> (r: Result<RefundReceipt, ErrorCode>)
        ensures
            old(ctx).applied(*final(ctx), r),
            r is Err ==> *final(ctx) == *old(ctx),
    {
        let mut cfg = ctx.global_config_account;
        let mut position = ctx.user_account;
        let mut summary = ctx.user_summary;
        let (usdc_amount, close_user_summary) = match refund(
            &mut cfg,
            &mut position,
            &mut summary,
            &ctx.program_usdc_token_account,
        ) {
            Ok(done) => done,
            Err(code) => { return Err(code); },
        };
        ctx.global_config_account = cfg;
        ctx.user_account = position;
        ctx.user_summary = summary;
        Ok(RefundReceipt { usdc_amount, recipient: ctx.user_account.authority, close_user_summary })
    }
}

} // verus!
