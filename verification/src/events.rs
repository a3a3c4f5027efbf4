//! What the pool reports of a purchase and of a claim.

use vstd::prelude::*;
use crate::pubkey::Pubkey;

verus! {

/// Reported once for every purchase.
#[derive(Clone, Copy, Debug, PartialEq, Eq)]
pub struct BuyEvent {
    /// The buyer.
    pub user: Pubkey,
    /// The address of the position that the purchase created.
    pub user_position: Pubkey,
    /// The index that the pool assigned to it.
    pub position_index: u64,
    /// What moved from the buyer to the pool: input and fee.
    pub usdc_amount: u64,
    /// The allocation granted.
    pub walien_amount: u64,
    /// The rate after the trade.
    pub price_after: u128,
}

/// Reported once for every claim.
#[derive(Clone, Copy, Debug, PartialEq, Eq)]
pub struct ClaimEvent {
    /// Who asked for the delivery.
    pub caller: Pubkey,
    /// The owner of the position, to whom the allocation went.
    pub user: Pubkey,
    /// The address of the position.
    pub user_position: Pubkey,
    /// Its index.
    pub position_index: u64,
    /// The allocation delivered.
    pub walien_amount: u64,
}

} // verus!
