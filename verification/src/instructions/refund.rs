//! Cancelling a position: what a buyer's withdrawal and the admin's rollback
//! have in common. The payment goes back to the owner, the inventory back to
//! the pool, and nothing of the allocation is delivered.

use vstd::prelude::*;
use crate::errors::ErrorCode;
use crate::pubkey::Pubkey;
use crate::state::{GlobalConfig, UserPosition, UserSummary};
use crate::token::TokenAccount;

verus! {

/// What a cancellation asks of the custodian. The position is closed in every
/// case, and no token on sale moves.
#[derive(Clone, Copy, Debug, PartialEq, Eq)]
pub struct RefundReceipt {
    /// To be moved from the pool's stable-token vault to the owner's account,
    /// on the pool's authority.
    pub usdc_amount: u64,
    /// Who is refunded the storage cost of the records that are closed.
    pub recipient: Pubkey,
    /// Whether the summary is closed too, because nothing is left in it.
    pub close_user_summary: bool,
}

/// The reason for which the cancellation of `position` is refused, if there
/// is one. The checks are made in this order, and all of them before
/// anything is written.
pub open spec fn refund_refusal(
    cfg: GlobalConfig,
    position: UserPosition,
    summary: UserSummary,
    vault: TokenAccount,
) -> Option<ErrorCode> {
    if vault.amount == 0 {
        Some(ErrorCode::WithdrawNotAllowed)
    } else if cfg.available_for_swap_in_usdc + position.usdc_spent > u64::MAX {
        Some(ErrorCode::AmountCalcOverflow)
    } else if !summary.can_debit(position.usdc_spent, position.walien_allocation) {
        Some(ErrorCode::UserSummaryUnderflow)
    } else {
        None
    }
}

/// The pool after it has taken back the inventory of `position`.
pub open spec fn restocked(cfg: GlobalConfig, position: UserPosition) -> GlobalConfig {
    GlobalConfig {
        available_for_swap_in_usdc: (cfg.available_for_swap_in_usdc + position.usdc_spent) as u64,
        ..cfg
    }
}

/// The position after its cancellation: it is owed nothing.
pub open spec fn voided(position: UserPosition) -> UserPosition {
    UserPosition { walien_allocation: 0, ..position }
}

/// Cancels `position`: the pool takes back the inventory that the position
/// had used, the summary gives up the position's amounts, and the position's
/// allocation is set to zero. Returns the amount to refund and whether the
/// summary is settled afterwards.
///
/// Refused, with nothing changed, for the first of these that holds: the
/// vault is empty (`WithdrawNotAllowed`); the pool's inventory would overflow
/// (`AmountCalcOverflow`); the summary holds less than the position
/// (`UserSummaryUnderflow`).
pub fn refund(
    cfg: &mut GlobalConfig,
    position: &mut UserPosition,
    summary: &mut UserSummary,
    vault: &TokenAccount,
) -> (r: Result<(u64, bool), ErrorCode>)
    ensures
        match refund_refusal(*old(cfg), *old(position), *old(summary), *vault) {
            Some(code) => r == Err::<(u64, bool), ErrorCode>(code) && *final(cfg) == *old(cfg)
                && *final(position) == *old(position) && *final(summary) == *old(summary),
            None => r == Ok::<(u64, bool), ErrorCode>(
                (old(position).usdc_spent, final(summary).is_settled()),
            ) && *final(cfg) == restocked(*old(cfg), *old(position)) && *final(position) == voided(
                *old(position),
            ) && *final(summary) == old(summary).debited(
                old(position).usdc_spent,
                old(position).walien_allocation,
            ),
        },
{
    if vault.amount == 0 {
        return Err(ErrorCode::WithdrawNotAllowed);
    }
    let usdc_amount = position.usdc_spent;
    let walien_amount = position.walien_allocation;
    let available = match cfg.available_for_swap_in_usdc.checked_add(usdc_amount) {
        Some(sum) => sum,
        None => { return Err(ErrorCode::AmountCalcOverflow); },
    };
    let mut debited = *summary;
    let close_user_summary = match debited.debit(usdc_amount, walien_amount) {
        Ok(settled) => settled,
        Err(code) => { return Err(code); },
    };
    cfg.available_for_swap_in_usdc = available;
    *summary = debited;
    position.walien_allocation = 0;
    Ok((usdc_amount, close_user_summary))
}

} // verus!
