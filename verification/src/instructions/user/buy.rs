//! Buying: a payment in the stable token for an allocation of the token on
//! sale, recorded as a new position and added to the buyer's summary.

use vstd::prelude::*;
use crate::constants::MAX_USDC_CAP;
use crate::errors::ErrorCode;
use crate::events::BuyEvent;
use crate::pubkey::Pubkey;
use crate::state::{GlobalConfig, UserPosition, UserSummary};
use crate::utils::{
    answers, calculate_swap_from_config, may_consult, unpriceable, SwapRequest,
    SwapStepComputation,
};

verus! {

/// The records that a purchase reads and writes.
#[derive(Clone, Copy, Debug, PartialEq, Eq)]
pub struct Buy {
    pub global_config_account: GlobalConfig,
    /// The buyer.
    pub user: Pubkey,
    /// The record that becomes the new position. Whatever it holds is
    /// overwritten.
    pub user_account: UserPosition,
    /// The address of `user_account`.
    pub user_account_key: Pubkey,
    /// The buyer's summary; all zero if this is the buyer's first purchase.
    pub user_summary: UserSummary,
}

/// What a purchase asks of the custodian and reports.
#[derive(Clone, Copy, Debug, PartialEq, Eq)]
pub struct BuyReceipt {
    /// To be moved from the buyer's stable-token account to the pool's vault,
    /// on the buyer's own authority.
    pub transfer_amount: u64,
    pub event: BuyEvent,
}

impl Buy {
    /// What a purchase priced as `step` moves from the buyer to the pool: the
    /// input of the trade and its fee.
    pub open spec fn transfer_amount(step: SwapStepComputation) -> int {
        step.amount_in + step.fee_amount
    }

    /// The reason for which a purchase priced as `step` is refused, if there
    /// is one. The checks are made in this order, and all of them before
    /// anything is written.
    pub open spec fn refusal(self, step: SwapStepComputation, min_tokens_out: u64) -> Option<
        ErrorCode,
    > {
        let cfg = self.global_config_account;
        let spent = Buy::transfer_amount(step);
        if !cfg.is_sale_active {
            Some(ErrorCode::SaleNotActive)
        } else if spent > u64::MAX {
            Some(ErrorCode::AmountCalcOverflow)
        } else if spent > MAX_USDC_CAP || cfg.available_for_swap_in_usdc > MAX_USDC_CAP {
            Some(ErrorCode::UsdcCapExceeded)
        } else if cfg.available_for_swap_in_usdc < spent {
            Some(ErrorCode::InsufficientAvailableForSwap)
        } else if step.amount_out == 0 {
            Some(ErrorCode::ZeroTradableAmount)
        } else if step.amount_out < min_tokens_out {
            Some(ErrorCode::SlippageExceeded)
        } else if !self.user_summary.can_credit(spent as u64, step.amount_out)
            || cfg.possition_index == u64::MAX {
            Some(ErrorCode::AmountCalcOverflow)
        } else {
            None
        }
    }

    /// The records after an accepted purchase priced as `step` at time
    /// `now_ts`.
    pub open spec fn settled(self, step: SwapStepComputation, now_ts: i64) -> Buy {
        let cfg = self.global_config_account;
        let spent = Buy::transfer_amount(step) as u64;
        Buy {
            global_config_account: GlobalConfig {
                available_for_swap_in_usdc: (cfg.available_for_swap_in_usdc - spent) as u64,
                initial_sqrt_price_x64: step.next_price,
                possition_index: (cfg.possition_index + 1) as u64,
                ..cfg
            },
            user_account: UserPosition {
                authority: self.user,
                index: cfg.possition_index,
                usdc_spent: spent,
                walien_allocation: step.amount_out,
                last_buy_timestamp: now_ts,
            },
            user_summary: self.user_summary.credited(
                self.user,
                spent,
                step.amount_out,
                cfg.possition_index,
                now_ts,
            ),
            ..self
        }
    }

    /// What an accepted purchase priced as `step` asks and reports.
    pub open spec fn receipt(self, step: SwapStepComputation) -> BuyReceipt {
        let spent = Buy::transfer_amount(step) as u64;
        BuyReceipt {
            transfer_amount: spent,
            event: BuyEvent {
                user: self.user,
                user_position: self.user_account_key,
                position_index: self.global_config_account.possition_index,
                usdc_amount: spent,
                walien_amount: step.amount_out,
                price_after: step.next_price,
            },
        }
    }

    /// Whether `post` and `r` are what a purchase priced as `step` leaves of
    /// `self`: refused and nothing changed, or accepted and settled.
    pub open spec fn settles_to(
        self,
        step: SwapStepComputation,
        min_tokens_out: u64,
        now_ts: i64,
        post: Buy,
        r: Result<BuyReceipt, ErrorCode>,
    ) -> bool {
        match self.refusal(step, min_tokens_out) {
            Some(code) => r == Err::<BuyReceipt, ErrorCode>(code) && post == self,
            None => r == Ok::<BuyReceipt, ErrorCode>(self.receipt(step)) && post == self.settled(
                step,
                now_ts,
            ),
        }
    }

    /// Whether `post` and `r` are what a purchase leaves of `self` when the
    /// engine answers `answer`: the engine's refusal and nothing changed, or
    /// what the priced purchase settles to.
    pub open spec fn answered_to(
        self,
        answer: Result<SwapStepComputation, ErrorCode>,
        min_tokens_out: u64,
        now_ts: i64,
        post: Buy,
        r: Result<BuyReceipt, ErrorCode>,
    ) -> bool {
        match answer {
            Ok(step) => self.settles_to(step, min_tokens_out, now_ts, post, r),
            Err(code) => r == Err::<BuyReceipt, ErrorCode>(code) && post == self,
        }
    }

    /// The part of a purchase that follows its pricing: checks the priced
    /// trade against the pool and the buyer's bound, then records it.
    ///
    /// Refused, with nothing changed, for the first of these that holds: the
    /// sale is not active (`SaleNotActive`); input and fee overflow
    /// (`AmountCalcOverflow`); their sum, or the pool's remaining inventory,
    /// is above `MAX_USDC_CAP` (`UsdcCapExceeded`); the inventory is less than
    /// the sum (`InsufficientAvailableForSwap`); nothing comes out
    /// (`ZeroTradableAmount`); less comes out than `min_tokens_out`
    /// (`SlippageExceeded`); a total of the summary, or one of the two
    /// counters, would overflow (`AmountCalcOverflow`).
    ///
    /// Otherwise the position is written with the pool's counter as its
    /// index, the summary is credited, and the pool gives up the inventory,
    /// takes the engine's rate and advances its counter by one.
    pub fn settle(
        ctx: &mut Buy,
        step: SwapStepComputation,
        min_tokens_out: u64,
        now_ts: i64,
    ) -> (r: Result<BuyReceipt, ErrorCode>)
        ensures
            old(ctx).settles_to(step, min_tokens_out, now_ts, *final(ctx), r),
            r is Ok ==> final(ctx).global_config_account.available_for_swap_in_usdc == old(
                ctx,
            ).global_config_account.available_for_swap_in_usdc - (step.amount_in
                + step.fee_amount),
            r is Err ==> *final(ctx) == *old(ctx),
    {
        if !ctx.global_config_account.is_sale_active {
            return Err(ErrorCode::SaleNotActive);
        }
        let transfer_amount = match step.amount_in.checked_add(step.fee_amount) {
            Some(sum) => sum,
            None => { return Err(ErrorCode::AmountCalcOverflow); },
        };
        if transfer_amount > MAX_USDC_CAP {
            return Err(ErrorCode::UsdcCapExceeded);
        }
        if ctx.global_config_account.available_for_swap_in_usdc > MAX_USDC_CAP {
            return Err(ErrorCode::UsdcCapExceeded);
        }
        if ctx.global_config_account.available_for_swap_in_usdc < transfer_amount {
            return Err(ErrorCode::InsufficientAvailableForSwap);
        }
        if step.amount_out == 0 {
            return Err(ErrorCode::ZeroTradableAmount);
        }
        if step.amount_out < min_tokens_out {
            return Err(ErrorCode::SlippageExceeded);
        }
        let position_index = ctx.global_config_account.possition_index;
        let next_position_index = match position_index.checked_add(1) {
            Some(next) => next,
            None => { return Err(ErrorCode::AmountCalcOverflow); },
        };
        let mut summary = ctx.user_summary;
        match summary.credit(ctx.user, transfer_amount, step.amount_out, position_index, now_ts) {
            Ok(()) => {},
            Err(code) => { return Err(code); },
        }

        ctx.user_account =
        UserPosition {
            authority: ctx.user,
            index: position_index,
            usdc_spent: transfer_amount,
            walien_allocation: step.amount_out,
            last_buy_timestamp: now_ts,
        };
        ctx.user_summary = summary;
        ctx.global_config_account.available_for_swap_in_usdc =
        ctx.global_config_account.available_for_swap_in_usdc - transfer_amount;
        ctx.global_config_account.initial_sqrt_price_x64 = step.next_price;
        ctx.global_config_account.possition_index = next_position_index;

        Ok(
            BuyReceipt {
                transfer_amount,
                event: BuyEvent {
                    user: ctx.user,
                    user_position: ctx.user_account_key,
                    position_index,
                    usdc_amount: transfer_amount,
                    walien_amount: step.amount_out,
                    price_after: step.next_price,
                },
            },
        )
    }

    /// Whether `post` and `r` are what `apply` may leave of `self`.
    pub open spec fn applied<E: FnOnce(SwapRequest) -> Result<SwapStepComputation, ErrorCode>>(
        self,
        amount: u64,
        min_tokens_out: u64,
        now_ts: i64,
        engine: E,
        post: Buy,
        r: Result<BuyReceipt, ErrorCode>,
    ) -> bool {
        if !self.global_config_account.is_sale_active {
            r == Err::<BuyReceipt, ErrorCode>(ErrorCode::SaleNotActive) && post == self
        } else {
            match unpriceable(self.global_config_account, amount) {
                Some(code) => r == Err::<BuyReceipt, ErrorCode>(code) && post == self,
                None => exists|answer: Result<SwapStepComputation, ErrorCode>|
                    #[trigger] answers(self.global_config_account, amount, engine, answer)
                        && self.answered_to(answer, min_tokens_out, now_ts, post, r),
            }
        }
    }

    /// Buys with `amount` of the stable token, for no less than
    /// `min_tokens_out` of the token on sale, at time `now_ts`.
    ///
    /// An inactive sale is refused with `SaleNotActive`; then a zero amount
    /// with `ZeroTradableAmount` and a pool without liquidity with
    /// `LiquidityZero`. None of these consults the engine. Otherwise the engine
    /// is asked `swap_request` of the pool and the amount, once; its refusal is
    /// handed on, and its answer is settled as `settle` describes. Whenever the
    /// purchase fails, every record is as it was before; when it succeeds, the
    /// pool's inventory has shrunk by exactly what the receipt asks the buyer
    /// to pay.
    pub fn apply<E>(
        ctx: &mut Buy,
        amount: u64,
        min_tokens_out: u64,
        now_ts: i64,
        engine: E,
    ) -> (r: Result<BuyReceipt, ErrorCode>) where
        E: FnOnce(SwapRequest) -> Result<SwapStepComputation, ErrorCode>,

        requires
            old(ctx).global_config_account.is_sale_active ==> may_consult(
                old(ctx).global_config_account,
                amount,
                engine,
            ),
        ensures
            old(ctx).applied(amount, min_tokens_out, now_ts, engine, *final(ctx), r),
            old(ctx).global_config_account.is_sale_active && amount == 0 ==> r == Err::<
                BuyReceipt,
                ErrorCode,
            >(ErrorCode::ZeroTradableAmount),
            r matches Ok(receipt) ==> final(ctx).global_config_account.available_for_swap_in_usdc
                == old(ctx).global_config_account.available_for_swap_in_usdc
                - receipt.transfer_amount,
            r is Err ==> *final(ctx) == *old(ctx),
    {
        if !ctx.global_config_account.is_sale_active {
            return Err(ErrorCode::SaleNotActive);
        }
        let answer = calculate_swap_from_config(&ctx.global_config_account, amount, engine);
        match answer {
            Ok(step) => Buy::settle(ctx, step, min_tokens_out, now_ts),
            Err(code) => Err(code),
        }
    }
}

} // verus!
