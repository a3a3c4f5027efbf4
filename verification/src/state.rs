//! The three kinds of record that the pool keeps: the pool's own ledger, one
//! position per purchase, and one summary per buyer.

use vstd::prelude::*;
use crate::errors::ErrorCode;
use crate::pubkey::Pubkey;

verus! {

/// The pool ledger: the one record that every operation reads or writes.
#[derive(Clone, Copy, Debug, PartialEq, Eq)]
pub struct GlobalConfig {
    /// Who may administer the pool, and who receives the proceeds of claims.
    pub admin: Pubkey,
    /// The stable token that buyers pay with.
    pub usdc_mint: Pubkey,
    /// The token on sale; unset until the admin configures it.
    pub walien_mint: Option<Pubkey>,
    pub is_sale_active: bool,
    pub is_claim_active: bool,
    /// Inventory that is still for sale, in base units of the stable token.
    pub available_for_swap_in_usdc: u64,
    /// The index that the next position receives. It starts at 1 and only
    /// ever grows.
    pub possition_index: u64,
    /// The bump of the pool's program-derived signing authority.
    pub bump: u8,
    /// The upper bound of the price curve, as a tick index.
    pub tick_upper: i32,
    /// The fee, in basis points.
    pub fee_bps: u16,
    /// The liquidity of the curve.
    pub liqudity: u128,
    /// The current rate. After initialization it is only ever overwritten
    /// with the rate that the pricing engine returned for a purchase.
    pub initial_sqrt_price_x64: u128,
}

/// The receipt of one purchase, open until it is claimed or cancelled.
#[derive(Clone, Copy, Debug, PartialEq, Eq)]
pub struct UserPosition {
    /// The buyer.
    pub authority: Pubkey,
    /// The index that the pool assigned: its counter before the purchase.
    pub index: u64,
    /// What the buyer paid: the input of the swap and its fee.
    pub usdc_spent: u64,
    /// What the buyer is owed in the token on sale.
    pub walien_allocation: u64,
    pub last_buy_timestamp: i64,
}

/// The totals of one buyer over all of that buyer's open positions.
#[derive(Clone, Copy, Debug, PartialEq, Eq)]
pub struct UserSummary {
    /// The buyer.
    pub authority: Pubkey,
    /// Sum of `usdc_spent` over the buyer's open positions.
    pub total_usdc_locked: u64,
    /// Sum of `walien_allocation` over the buyer's open positions.
    pub total_walien_alloc: u64,
    pub last_buy_timestamp: i64,
    /// The pool-wide index of the buyer's latest position.
    pub global_index_position: u64,
    /// How many positions this buyer has opened.
    pub index_position: u64,
}

impl UserPosition {
    /// A record with every field zero, as a position's storage is before a
    /// purchase fills it.
    pub fn empty() -> (position: UserPosition)
        ensures
            position.authority.is_zero(),
            position.index == 0,
            position.usdc_spent == 0,
            position.walien_allocation == 0,
            position.last_buy_timestamp == 0,
    {
        UserPosition {
            authority: Pubkey::default(),
            index: 0,
            usdc_spent: 0,
            walien_allocation: 0,
            last_buy_timestamp: 0,
        }
    }
}

impl UserSummary {
    /// A record with every field zero, as a summary is when a buyer's first
    /// purchase creates it.
    pub fn empty() -> (summary: UserSummary)
        ensures
            summary.authority.is_zero(),
            summary.total_usdc_locked == 0,
            summary.total_walien_alloc == 0,
            summary.last_buy_timestamp == 0,
            summary.global_index_position == 0,
            summary.index_position == 0,
    {
        UserSummary {
            authority: Pubkey::default(),
            total_usdc_locked: 0,
            total_walien_alloc: 0,
            last_buy_timestamp: 0,
            global_index_position: 0,
            index_position: 0,
        }
    }

    /// Whether nothing is locked and nothing is owed: the state in which a
    /// summary is destroyed.
    pub open spec fn is_settled(self) -> bool {
        self.total_usdc_locked == 0 && self.total_walien_alloc == 0
    }

    /// Whether a purchase of the given amounts, the buyer's next, can be added
    /// without any of the running totals leaving the range of `u64`.
    pub open spec fn can_credit(self, usdc: u64, walien: u64) -> bool {
        &&& self.total_usdc_locked + usdc <= u64::MAX
        &&& self.total_walien_alloc + walien <= u64::MAX
        &&& self.index_position + 1 <= u64::MAX
    }

    /// The summary after a purchase by `buyer` that spent `usdc`, was granted
    /// `walien` and received the pool-wide index `index` at time `now_ts`.
    pub open spec fn credited(
        self,
        buyer: Pubkey,
        usdc: u64,
        walien: u64,
        index: u64,
        now_ts: i64,
    ) -> UserSummary {
        UserSummary {
            authority: buyer,
            total_usdc_locked: (self.total_usdc_locked + usdc) as u64,
            total_walien_alloc: (self.total_walien_alloc + walien) as u64,
            last_buy_timestamp: now_ts,
            global_index_position: index,
            index_position: (self.index_position + 1) as u64,
        }
    }

    /// Whether the totals cover a position of the given amounts.
    pub open spec fn can_debit(self, usdc: u64, walien: u64) -> bool {
        self.total_usdc_locked >= usdc && self.total_walien_alloc >= walien
    }

    /// The summary after a position of the given amounts has left it.
    pub open spec fn debited(self, usdc: u64, walien: u64) -> UserSummary {
        UserSummary {
            total_usdc_locked: (self.total_usdc_locked - usdc) as u64,
            total_walien_alloc: (self.total_walien_alloc - walien) as u64,
            ..self
        }
    }

    /// Adds a purchase to the totals, or refuses with `AmountCalcOverflow` and
    /// leaves the summary as it was.
    pub fn credit(&mut self, buyer: Pubkey, usdc: u64, walien: u64, index: u64, now_ts: i64) -> (r:
        Result<(), ErrorCode>)
        ensures
            old(self).can_credit(usdc, walien) ==> r is Ok && *final(self) == old(self).credited(
                buyer,
                usdc,
                walien,
                index,
                now_ts,
            ),
            !old(self).can_credit(usdc, walien) ==> r == Err::<(), ErrorCode>(
                ErrorCode::AmountCalcOverflow,
            ) && *final(self) == *old(self),
    {
        let total_usdc_locked = match self.total_usdc_locked.checked_add(usdc) {
            Some(total) => total,
            None => { return Err(ErrorCode::AmountCalcOverflow); },
        };
        let total_walien_alloc = match self.total_walien_alloc.checked_add(walien) {
            Some(total) => total,
            None => { return Err(ErrorCode::AmountCalcOverflow); },
        };
        let index_position = match self.index_position.checked_add(1) {
            Some(count) => count,
            None => { return Err(ErrorCode::AmountCalcOverflow); },
        };
        self.authority = buyer;
        self.last_buy_timestamp = now_ts;
        self.total_usdc_locked = total_usdc_locked;
        self.total_walien_alloc = total_walien_alloc;
        self.global_index_position = index;
        self.index_position = index_position;
        Ok(())
    }

    /// Takes a position out of the totals, or refuses with
    /// `UserSummaryUnderflow` and leaves the summary as it was. Returns
    /// whether the summary is settled afterwards.
    pub fn debit(&mut self, usdc: u64, walien: u64) -> (r: Result<bool, ErrorCode>)
        ensures
            old(self).can_debit(usdc, walien) ==> *final(self) == old(self).debited(usdc, walien)
                && r == Ok::<bool, ErrorCode>(final(self).is_settled()),
            !old(self).can_debit(usdc, walien) ==> r == Err::<bool, ErrorCode>(
                ErrorCode::UserSummaryUnderflow,
            ) && *final(self) == *old(self),
    {
        let total_usdc_locked = match self.total_usdc_locked.checked_sub(usdc) {
            Some(total) => total,
            None => { return Err(ErrorCode::UserSummaryUnderflow); },
        };
        let total_walien_alloc = match self.total_walien_alloc.checked_sub(walien) {
            Some(total) => total,
            None => { return Err(ErrorCode::UserSummaryUnderflow); },
        };
        self.total_usdc_locked = total_usdc_locked;
        self.total_walien_alloc = total_walien_alloc;
        Ok(total_usdc_locked == 0 && total_walien_alloc == 0)
    }
}

} // verus!
