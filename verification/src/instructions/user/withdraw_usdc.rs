//! Withdrawing: a buyer cancels a position of their own and takes the
//! payment back.

use vstd::prelude::*;
use crate::errors::ErrorCode;
use crate::instructions::refund::{refund, refund_refusal, restocked, voided, RefundReceipt};
use crate::state::{GlobalConfig, UserPosition, UserSummary};
use crate::token::TokenAccount;

verus! {

/// The records that a withdrawal reads and writes.
#[derive(Clone, Copy, Debug, PartialEq, Eq)]
pub struct WithdrawUSDC {
    pub global_config_account: GlobalConfig,
    /// The position to cancel. Its `authority` is the owner, who asks for the
    /// withdrawal.
    pub user_account: UserPosition,
    /// The summary of the position's owner.
    pub user_summary: UserSummary,
    /// The pool's vault of the stable token.
    pub program_usdc_token_account: TokenAccount,
}

impl WithdrawUSDC {
    /// The reason for which the withdrawal is refused, if there is one.
    pub open spec fn refusal(self) -> Option<ErrorCode> {
        refund_refusal(
            self.global_config_account,
            self.user_account,
            self.user_summary,
            self.program_usdc_token_account,
        )
    }

    /// The records after an accepted withdrawal.
    pub open spec fn withdrawn(self) -> WithdrawUSDC {
        WithdrawUSDC {
            global_config_account: restocked(self.global_config_account, self.user_account),
            user_account: voided(self.user_account),
            user_summary: self.user_summary.debited(
                self.user_account.usdc_spent,
                self.user_account.walien_allocation,
            ),
            ..self
        }
    }

    /// What an accepted withdrawal asks of the custodian: the payment goes
    /// back to the owner, who is also refunded the storage cost.
    pub open spec fn receipt(self) -> RefundReceipt {
        RefundReceipt {
            usdc_amount: self.user_account.usdc_spent,
            recipient: self.user_account.authority,
            close_user_summary: self.withdrawn().user_summary.is_settled(),
        }
    }

    /// Whether `post` and `r` are what `apply` leaves of `self`: refused and
    /// nothing changed, or accepted and withdrawn.
    pub open spec fn applied(self, post: WithdrawUSDC, r: Result<RefundReceipt, ErrorCode>) -> bool {
        match self.refusal() {
            Some(code) => r == Err::<RefundReceipt, ErrorCode>(code) && post == self,
            None => r == Ok::<RefundReceipt, ErrorCode>(self.receipt()) && post
                == self.withdrawn(),
        }
    }

    /// Cancels the position for its owner.
    ///
    /// Refused, with nothing changed, for the first of these that holds: the
    /// vault is empty (`WithdrawNotAllowed`); the pool's inventory would
    /// overflow (`AmountCalcOverflow`); the summary holds less than the
    /// position (`UserSummaryUnderflow`). Otherwise the pool's inventory
    /// grows by exactly what the position had spent, the summary gives up the
    /// position's amounts, and the receipt names exactly that payment for the
    /// owner.
    pub fn apply(ctx: &mut WithdrawUSDC) -> (r: Result<RefundReceipt, ErrorCode>)
        ensures
            old(ctx).applied(*final(ctx), r),
            r is Err ==> *final(ctx) == *old(ctx),
    {
        let mut cfg = ctx.global_config_account;
        let mut position = ctx.user_account;
        let mut summary = ctx.user_summary;
        let (usdc_amount, close_user_summary) = match refund(
            &mut cfg,
            &mut position,
            &mut summary,
            &ctx.program_usdc_token_account,
        ) {
            Ok(done) => done,
            Err(code) => { return Err(code); },
        };
        ctx.global_config_account = cfg;
        ctx.user_account = position;
        ctx.user_summary = summary;
        Ok(RefundReceipt { usdc_amount, recipient: ctx.user_account.authority, close_user_summary })
    }
}

} // verus!
