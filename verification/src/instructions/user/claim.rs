//! Claiming: the allocation of a position is delivered to its owner, the
//! payment goes to the admin, and the position is closed.

use vstd::prelude::*;
use crate::errors::{Error, ErrorCode, UnpackError};
use crate::events::ClaimEvent;
use crate::pubkey::Pubkey;
use crate::state::{GlobalConfig, UserPosition, UserSummary};
use crate::token::{
    is_initialized_token_account, is_token_account_layout, unpack_token_account, UncheckedAccount,
};

verus! {

/// The records that a claim reads and writes.
#[derive(Clone, Debug, PartialEq, Eq)]
pub struct Claim {
    pub global_config_account: GlobalConfig,
    /// Who asks for the delivery; need not be the owner.
    pub caller: Pubkey,
    /// The position to deliver. Its `authority` is the owner, on whose behalf
    /// the claim is made.
    pub user_account: UserPosition,
    /// The address of `user_account`.
    pub user_account_key: Pubkey,
    /// The summary of the position's owner.
    pub user_summary: UserSummary,
    /// The token on sale.
    pub walien_mint: Pubkey,
    /// The owner's account for the token on sale, which may not exist yet.
    pub user_walien_token_account: UncheckedAccount,
    /// The token program, which owns every token account.
    pub token_program: Pubkey,
}

/// What a claim asks of the custodian and reports. The position is closed in
/// every case.
#[derive(Clone, Copy, Debug, PartialEq, Eq)]
pub struct ClaimReceipt {
    /// Whether the owner's token account has to be created first, at the
    /// caller's expense.
    pub create_token_account: bool,
    /// To be moved from the pool's vault of the token on sale to the owner's
    /// token account, on the pool's authority.
    pub walien_amount: u64,
    /// To be moved from the pool's stable-token vault to the admin's account,
    /// on the pool's authority.
    pub usdc_amount: u64,
    pub event: ClaimEvent,
    /// Who is refunded the storage cost of the records that are closed: the
    /// owner if the token account was there already, the caller who paid for
    /// it otherwise.
    pub recipient: Pubkey,
    /// Whether the summary is closed too, because nothing is left in it.
    pub close_user_summary: bool,
}

impl Claim {
    /// Whether the owner's token account exists already: the token program
    /// owns it and it holds data.
    pub open spec fn destination_exists(self) -> bool {
        self.user_walien_token_account.owner == self.token_program
            && self.user_walien_token_account.data@.len() > 0
    }

    /// Whether the bytes of the owner's token account name the token on sale
    /// as its mint and the owner of the position as its owner.
    pub open spec fn destination_is_owners(self) -> bool {
        let data = self.user_walien_token_account.data@;
        data.subrange(0, 32) == self.walien_mint@ && data.subrange(32, 64)
            == self.user_account.authority@
    }

    /// The reason for which the claim is refused, if there is one. The checks
    /// are made in this order, and all of them before anything is written.
    pub open spec fn refusal(self) -> Option<Error> {
        let data = self.user_walien_token_account.data@;
        if !self.global_config_account.is_claim_active {
            Some(Error::Code(ErrorCode::ClaimIsNotActive))
        } else if self.user_account.walien_allocation == 0 {
            Some(Error::Code(ErrorCode::NothingToClaim))
        } else if self.destination_exists() && !is_token_account_layout(data) {
            Some(Error::Unpack(UnpackError::InvalidAccountData))
        } else if self.destination_exists() && !is_initialized_token_account(data) {
            Some(Error::Unpack(UnpackError::UninitializedAccount))
        } else if self.destination_exists() && !self.destination_is_owners() {
            Some(Error::Code(ErrorCode::InvalidWalienTokenAccount))
        } else if !self.user_summary.can_debit(
            self.user_account.usdc_spent,
            self.user_account.walien_allocation,
        ) {
            Some(Error::Code(ErrorCode::UserSummaryUnderflow))
        } else {
            None
        }
    }

    /// The records after an accepted claim: the position's allocation is
    /// zero, and the summary no longer counts the position.
    pub open spec fn claimed(self) -> Claim {
        Claim {
            user_account: UserPosition { walien_allocation: 0, ..self.user_account },
            user_summary: self.user_summary.debited(
                self.user_account.usdc_spent,
                self.user_account.walien_allocation,
            ),
            ..self
        }
    }

    /// What an accepted claim asks and reports.
    pub open spec fn receipt(self) -> ClaimReceipt {
        ClaimReceipt {
            create_token_account: !self.destination_exists(),
            walien_amount: self.user_account.walien_allocation,
            usdc_amount: self.user_account.usdc_spent,
            event: ClaimEvent {
                caller: self.caller,
                user: self.user_account.authority,
                user_position: self.user_account_key,
                position_index: self.user_account.index,
                walien_amount: self.user_account.walien_allocation,
            },
            recipient: if self.destination_exists() {
                self.user_account.authority
            } else {
                self.caller
            },
            close_user_summary: self.claimed().user_summary.is_settled(),
        }
    }

    /// Whether `post` and `r` are what `apply` leaves of `self`: refused and
    /// nothing changed, or accepted and claimed.
    pub open spec fn applied(self, post: Claim, r: Result<ClaimReceipt, Error>) -> bool {
        match self.refusal() {
            Some(error) => r == Err::<ClaimReceipt, Error>(error) && post == self,
            None => r == Ok::<ClaimReceipt, Error>(self.receipt()) && post == self.claimed(),
        }
    }

    /// Delivers the position.
    ///
    /// Refused, with nothing changed, for the first of these that holds:
    /// claims are not active (`ClaimIsNotActive`); the position's allocation
    /// is zero (`NothingToClaim`); the owner's token account exists and its
    /// bytes do not decode (`InvalidAccountData`, `UninitializedAccount`), or
    /// decode to another mint or owner (`InvalidWalienTokenAccount`); the
    /// summary holds less than the position (`UserSummaryUnderflow`).
    ///
    /// Otherwise the receipt names exactly the position's allocation for the
    /// owner and exactly its payment for the admin, the summary gives up
    /// both, and the position's allocation is set to zero.
    pub fn apply(ctx: &mut Claim) -> (r: Result<ClaimReceipt, Error>)
        ensures
            old(ctx).applied(*final(ctx), r),
            r is Err ==> *final(ctx) == *old(ctx),
    {
        if !ctx.global_config_account.is_claim_active {
            return Err(Error::Code(ErrorCode::ClaimIsNotActive));
        }
        if ctx.user_account.walien_allocation == 0 {
            return Err(Error::Code(ErrorCode::NothingToClaim));
        }
        let walien_amount = ctx.user_account.walien_allocation;
        let usdc_spent = ctx.user_account.usdc_spent;
        let ata_already_exists = ctx.user_walien_token_account.owner == ctx.token_program
            && ctx.user_walien_token_account.data.len() > 0;

        if ata_already_exists {
            let token_account = match unpack_token_account(
                ctx.user_walien_token_account.data.as_slice(),
            ) {
                Ok(account) => account,
                Err(e) => { return Err(Error::Unpack(e)); },
            };
            let same_mint = token_account.mint == ctx.walien_mint;
            let same_owner = token_account.owner == ctx.user_account.authority;
            proof {
                let data = ctx.user_walien_token_account.data@;
                assert(same_mint == (data.subrange(0, 32) == ctx.walien_mint@)) by {
                    assert(token_account.mint.bytes =~= ctx.walien_mint.bytes
                        <==> token_account.mint@ == ctx.walien_mint@);
                }
                assert(same_owner == (data.subrange(32, 64) == ctx.user_account.authority@)) by {
                    assert(token_account.owner.bytes =~= ctx.user_account.authority.bytes
                        <==> token_account.owner@ == ctx.user_account.authority@);
                }
            }
            if !(same_mint && same_owner) {
                return Err(Error::Code(ErrorCode::InvalidWalienTokenAccount));
            }
        }
        let mut summary = ctx.user_summary;
        let close_user_summary = match summary.debit(usdc_spent, walien_amount) {
            Ok(settled) => settled,
            Err(code) => { return Err(Error::Code(code)); },
        };
        let receipt = ClaimReceipt {
            create_token_account: !ata_already_exists,
            walien_amount,
            usdc_amount: usdc_spent,
            event: ClaimEvent {
                caller: ctx.caller,
                user: ctx.user_account.authority,
                user_position: ctx.user_account_key,
                position_index: ctx.user_account.index,
                walien_amount,
            },
            recipient: if ata_already_exists {
                ctx.user_account.authority
            } else {
                ctx.caller
            },
            close_user_summary,
        };
        ctx.user_summary = summary;
        ctx.user_account.walien_allocation = 0;
        Ok(receipt)
    }
}

} // verus!
