//! What holds of the operations taken together.

use vstd::prelude::*;
use crate::errors::{Error, ErrorCode};
use crate::constants::MAX_USDC_CAP;
use crate::instructions::{Buy, BuyReceipt, Claim, Quote, RollbackPosition, WithdrawUSDC};
use crate::instructions::refund::restocked;
use crate::instructions::Initialize;
use crate::state::{GlobalConfig, UserPosition, UserSummary};
use crate::token::{is_initialized_token_account, TokenAccount};
use crate::utils::{
    answers, swap_request, unpriceable, SqrtPriceRange, SwapRequest, SwapStepComputation,
};

verus! {

/// Whether the engine is the pure function `price`: whatever it is asked, it
/// can only answer what `price` gives for the question.
pub open spec fn is_pure<E: FnOnce(SwapRequest) -> Result<SwapStepComputation, ErrorCode>>(
    engine: E,
    price: spec_fn(SwapRequest) -> Result<SwapStepComputation, ErrorCode>,
) -> bool {
    forall|request: SwapRequest, answer: Result<SwapStepComputation, ErrorCode>|
        #[trigger] call_ensures(engine, (request,), answer) ==> answer == price(request)
}

/// The quote for `amount` against a pool whose engine is the pure function
/// `price`.
pub open spec fn quote_of(
    cfg: GlobalConfig,
    amount: u64,
    price: spec_fn(SwapRequest) -> Result<SwapStepComputation, ErrorCode>,
) -> Result<u64, ErrorCode> {
    match unpriceable(cfg, amount) {
        Some(code) => Err(code),
        None => Quote::quoted(price(swap_request(cfg, amount))),
    }
}

/// What a pool is asked to price depends on four of its fields alone: the
/// liquidity, the fee, the rate and the bound of the curve.
pub proof fn question_depends_on_the_curve_alone(first: GlobalConfig, second: GlobalConfig, amount: u64)
    requires
        first.liqudity == second.liqudity,
        first.fee_bps == second.fee_bps,
        first.initial_sqrt_price_x64 == second.initial_sqrt_price_x64,
        first.tick_upper == second.tick_upper,
    ensures
        unpriceable(first, amount) == unpriceable(second, amount),
        swap_request(first, amount) == swap_request(second, amount),
{
}

/// With a pure engine a quote is a function of the pool and the amount:
/// whatever `Quote::apply` returns is `quote_of` them.
pub proof fn quote_is_a_function<E: FnOnce(SwapRequest) -> Result<SwapStepComputation, ErrorCode>>(
    ctx: Quote,
    amount: u64,
    engine: E,
    price: spec_fn(SwapRequest) -> Result<SwapStepComputation, ErrorCode>,
    r: Result<u64, ErrorCode>,
)
    requires
        is_pure(engine, price),
        ctx.applied(amount, engine, r),
    ensures
        r == quote_of(ctx.global_config_account, amount, price),
{
    if unpriceable(ctx.global_config_account, amount) is None {
        let answer = choose|answer: Result<SwapStepComputation, ErrorCode>|
            #[trigger] answers(ctx.global_config_account, amount, engine, answer) && r
                == Quote::quoted(answer);
        assert(call_ensures(engine, (swap_request(ctx.global_config_account, amount),), answer));
    }
}

/// Two quotes of one amount return the same, both `Ok` with the same amount
/// or both `Err` with the same code, when the pools agree in the four fields
/// of the curve and the engines are the same pure function. A quote takes the
/// pool by shared reference, so nothing is changed between them.
pub proof fn quote_is_repeatable<
    E1: FnOnce(SwapRequest) -> Result<SwapStepComputation, ErrorCode>,
    E2: FnOnce(SwapRequest) -> Result<SwapStepComputation, ErrorCode>,
>(
    first_pool: Quote,
    second_pool: Quote,
    amount: u64,
    first: E1,
    second: E2,
    price: spec_fn(SwapRequest) -> Result<SwapStepComputation, ErrorCode>,
    r1: Result<u64, ErrorCode>,
    r2: Result<u64, ErrorCode>,
)
    requires
        first_pool.global_config_account.liqudity == second_pool.global_config_account.liqudity,
        first_pool.global_config_account.fee_bps == second_pool.global_config_account.fee_bps,
        first_pool.global_config_account.initial_sqrt_price_x64
            == second_pool.global_config_account.initial_sqrt_price_x64,
        first_pool.global_config_account.tick_upper
            == second_pool.global_config_account.tick_upper,
        is_pure(first, price),
        is_pure(second, price),
        first_pool.applied(amount, first, r1),
        second_pool.applied(amount, second, r2),
    ensures
        r1 == r2,
{
    quote_is_a_function(first_pool, amount, first, price, r1);
    quote_is_a_function(second_pool, amount, second, price, r2);
    question_depends_on_the_curve_alone(
        first_pool.global_config_account,
        second_pool.global_config_account,
        amount,
    );
}

/// A quote that is refused before the engine is asked is the same for every
/// engine.
pub proof fn refused_quote_needs_no_engine<
    E1: FnOnce(SwapRequest) -> Result<SwapStepComputation, ErrorCode>,
    E2: FnOnce(SwapRequest) -> Result<SwapStepComputation, ErrorCode>,
>(ctx: Quote, amount: u64, first: E1, second: E2, r1: Result<u64, ErrorCode>, r2: Result<
    u64,
    ErrorCode,
>)
    requires
        unpriceable(ctx.global_config_account, amount) is Some,
        ctx.applied(amount, first, r1),
        ctx.applied(amount, second, r2),
    ensures
        r1 == r2,
        r1 is Err,
{
}

/// After a successful purchase the pool's inventory is what it was, less the
/// input of the trade and its fee, exactly; and the receipt asks the buyer
/// for that sum.
pub proof fn buy_conserves_inventory(
    ctx: Buy,
    step: SwapStepComputation,
    min_tokens_out: u64,
    now_ts: i64,
    post: Buy,
    receipt: BuyReceipt,
)
    requires
        ctx.settles_to(step, min_tokens_out, now_ts, post, Ok(receipt)),
    ensures
        post.global_config_account.available_for_swap_in_usdc
            == ctx.global_config_account.available_for_swap_in_usdc - (step.amount_in
            + step.fee_amount),
        receipt.transfer_amount == step.amount_in + step.fee_amount,
        post.user_account.usdc_spent == step.amount_in + step.fee_amount,
        post.user_account.walien_allocation == step.amount_out,
        post.user_account.index == ctx.global_config_account.possition_index,
        post.global_config_account.possition_index == ctx.global_config_account.possition_index
            + 1,
        post.global_config_account.initial_sqrt_price_x64 == step.next_price,
        post.global_config_account.available_for_swap_in_usdc <= MAX_USDC_CAP,
{
}

/// While the sale is active, a purchase of nothing fails with
/// `ZeroTradableAmount`, whatever the engine and the bound, and leaves every
/// record as it was.
pub proof fn buy_of_nothing_is_refused<
    E: FnOnce(SwapRequest) -> Result<SwapStepComputation, ErrorCode>,
>(ctx: Buy, min_tokens_out: u64, now_ts: i64, engine: E, post: Buy, r: Result<
    BuyReceipt,
    ErrorCode,
>)
    requires
        ctx.global_config_account.is_sale_active,
        ctx.applied(0, min_tokens_out, now_ts, engine, post, r),
    ensures
        r == Err::<BuyReceipt, ErrorCode>(ErrorCode::ZeroTradableAmount),
        post == ctx,
{
}

/// One purchase of a run: how the engine priced it, the buyer's bound, and
/// when it was made.
pub struct Purchase {
    pub step: SwapStepComputation,
    pub min_tokens_out: u64,
    pub now_ts: i64,
}

/// The records after the purchases of a run have been settled one after the
/// other, each on what the one before left.
pub open spec fn after_purchases(ctx: Buy, run: Seq<Purchase>) -> Buy
    decreases run.len(),
{
    if run.len() == 0 {
        ctx
    } else {
        after_purchases(ctx, run.drop_last()).settled(run.last().step, run.last().now_ts)
    }
}

/// Whether every purchase of a run is accepted in its turn.
pub open spec fn all_accepted(ctx: Buy, run: Seq<Purchase>) -> bool
    decreases run.len(),
{
    run.len() == 0 || (all_accepted(ctx, run.drop_last()) && after_purchases(
        ctx,
        run.drop_last(),
    ).refusal(run.last().step, run.last().min_tokens_out) is None)
}

/// What the purchases of a run spent in all: inputs and fees.
pub open spec fn total_spent(run: Seq<Purchase>) -> int
    decreases run.len(),
{
    if run.len() == 0 {
        0
    } else {
        total_spent(run.drop_last()) + run.last().step.amount_in + run.last().step.fee_amount
    }
}

/// What the purchases of a run were granted in all.
pub open spec fn total_granted(run: Seq<Purchase>) -> int
    decreases run.len(),
{
    if run.len() == 0 {
        0
    } else {
        total_granted(run.drop_last()) + run.last().step.amount_out
    }
}

/// After a run of accepted purchases by one buyer the summary's totals are
/// what they were before, plus the sums of what the purchases spent and were
/// granted; the summary has counted each purchase, and the pool has given up
/// the inventory and advanced its counter by one for each.
pub proof fn summary_totals_grow_by_sums(ctx: Buy, run: Seq<Purchase>)
    requires
        all_accepted(ctx, run),
    ensures
        after_purchases(ctx, run).user_summary.total_usdc_locked
            == ctx.user_summary.total_usdc_locked + total_spent(run),
        after_purchases(ctx, run).user_summary.total_walien_alloc
            == ctx.user_summary.total_walien_alloc + total_granted(run),
        after_purchases(ctx, run).user_summary.index_position == ctx.user_summary.index_position
            + run.len(),
        after_purchases(ctx, run).global_config_account.available_for_swap_in_usdc
            == ctx.global_config_account.available_for_swap_in_usdc - total_spent(run),
        after_purchases(ctx, run).global_config_account.possition_index
            == ctx.global_config_account.possition_index + run.len(),
        after_purchases(ctx, run).user == ctx.user,
    decreases run.len(),
{
    if run.len() > 0 {
        summary_totals_grow_by_sums(ctx, run.drop_last());
    }
}

/// A run of accepted purchases is accepted up to every point of it.
pub proof fn accepted_up_to_every_point(ctx: Buy, run: Seq<Purchase>, k: int)
    requires
        all_accepted(ctx, run),
        0 <= k <= run.len(),
    ensures
        all_accepted(ctx, run.take(k)),
    decreases run.len(),
{
    if k == run.len() {
        assert(run.take(k) =~= run);
    } else {
        assert(run.drop_last().take(k) =~= run.take(k));
        accepted_up_to_every_point(ctx, run.drop_last(), k);
    }
}

/// For a run of accepted purchases by one buyer whose summary was new, at
/// every point of the run the summary's totals are the sums of what the
/// purchases up to that point spent and were granted.
pub proof fn summary_aggregates_purchases(ctx: Buy, run: Seq<Purchase>)
    requires
        ctx.user_summary.is_settled(),
        all_accepted(ctx, run),
    ensures
        forall|k: int|
            0 <= k <= run.len() ==> (#[trigger] after_purchases(
                ctx,
                run.take(k),
            )).user_summary.total_usdc_locked == total_spent(run.take(k)) && after_purchases(
                ctx,
                run.take(k),
            ).user_summary.total_walien_alloc == total_granted(run.take(k)),
{
    assert forall|k: int| 0 <= k <= run.len() implies (#[trigger] after_purchases(
        ctx,
        run.take(k),
    )).user_summary.total_usdc_locked == total_spent(run.take(k)) && after_purchases(
        ctx,
        run.take(k),
    ).user_summary.total_walien_alloc == total_granted(run.take(k)) by {
        accepted_up_to_every_point(ctx, run, k);
        summary_totals_grow_by_sums(ctx, run.take(k));
    }
}

/// The records of a withdrawal that follows a purchase at once: the pool,
/// the position and the summary as the purchase left them, and the vault as
/// it stands once the purchase has been paid in.
pub open spec fn withdrawal_after(bought: Buy, vault: TokenAccount) -> WithdrawUSDC {
    WithdrawUSDC {
        global_config_account: bought.global_config_account,
        user_account: bought.user_account,
        user_summary: bought.user_summary,
        program_usdc_token_account: vault,
    }
}

/// A withdrawal that follows an accepted purchase at once, with something in
/// the vault, is accepted and undoes the purchase: the pool's inventory and
/// the summary's totals are what they were before the purchase, the refund is
/// exactly what the purchase spent and goes to the buyer, the position is
/// owed nothing, and the summary is closed exactly if it was new.
pub proof fn withdraw_undoes_buy(
    ctx: Buy,
    step: SwapStepComputation,
    min_tokens_out: u64,
    now_ts: i64,
    vault: TokenAccount,
)
    requires
        ctx.refusal(step, min_tokens_out) is None,
        vault.amount > 0,
    ensures
        ({
            let withdrawal = withdrawal_after(ctx.settled(step, now_ts), vault);
            &&& withdrawal.refusal() is None
            &&& withdrawal.withdrawn().global_config_account.available_for_swap_in_usdc
                == ctx.global_config_account.available_for_swap_in_usdc
            &&& withdrawal.withdrawn().user_summary.total_usdc_locked
                == ctx.user_summary.total_usdc_locked
            &&& withdrawal.withdrawn().user_summary.total_walien_alloc
                == ctx.user_summary.total_walien_alloc
            &&& withdrawal.receipt().usdc_amount == step.amount_in + step.fee_amount
            &&& withdrawal.receipt().usdc_amount == ctx.settled(
                step,
                now_ts,
            ).user_account.usdc_spent
            &&& withdrawal.receipt().recipient == ctx.user
            &&& withdrawal.withdrawn().user_account.walien_allocation == 0
            &&& withdrawal.receipt().close_user_summary == ctx.user_summary.is_settled()
        }),
{
}

/// A withdrawal from a summary that holds less than the position fails with
/// `UserSummaryUnderflow`, provided that the vault is not empty and the
/// pool's inventory can take the position back; nothing wraps, and nothing
/// changes.
pub proof fn withdraw_refuses_underflow(ctx: WithdrawUSDC)
    requires
        ctx.program_usdc_token_account.amount > 0,
        ctx.global_config_account.available_for_swap_in_usdc + ctx.user_account.usdc_spent
            <= u64::MAX,
        ctx.user_summary.total_usdc_locked < ctx.user_account.usdc_spent
            || ctx.user_summary.total_walien_alloc < ctx.user_account.walien_allocation,
    ensures
        ctx.refusal() == Some(ErrorCode::UserSummaryUnderflow),
{
}

/// A rollback from a summary that holds less than the position fails with
/// `UserSummaryUnderflow`, under the same provisos as a withdrawal.
pub proof fn rollback_refuses_underflow(ctx: RollbackPosition)
    requires
        ctx.program_usdc_token_account.amount > 0,
        ctx.global_config_account.available_for_swap_in_usdc + ctx.user_account.usdc_spent
            <= u64::MAX,
        ctx.user_summary.total_usdc_locked < ctx.user_account.usdc_spent
            || ctx.user_summary.total_walien_alloc < ctx.user_account.walien_allocation,
    ensures
        ctx.refusal() == Some(ErrorCode::UserSummaryUnderflow),
{
}

/// A claim from a summary that holds less than the position fails with
/// `UserSummaryUnderflow`, provided that claims are active, the position is
/// owed something, and the owner's token account is new or is an initialized
/// account of the owner for the token on sale.
pub proof fn claim_refuses_underflow(ctx: Claim)
    requires
        ctx.global_config_account.is_claim_active,
        ctx.user_account.walien_allocation > 0,
        !ctx.destination_exists() || (is_initialized_token_account(
            ctx.user_walien_token_account.data@,
        ) && ctx.destination_is_owners()),
        ctx.user_summary.total_usdc_locked < ctx.user_account.usdc_spent
            || ctx.user_summary.total_walien_alloc < ctx.user_account.walien_allocation,
    ensures
        ctx.refusal() == Some(Error::Code(ErrorCode::UserSummaryUnderflow)),
{
}

/// What the positions of a list spent in all.
pub open spec fn spent_by(positions: Seq<UserPosition>) -> int
    decreases positions.len(),
{
    if positions.len() == 0 {
        0
    } else {
        spent_by(positions.drop_last()) + positions.last().usdc_spent
    }
}

/// What the positions of a list are owed in all.
pub open spec fn owed_to(positions: Seq<UserPosition>) -> int
    decreases positions.len(),
{
    if positions.len() == 0 {
        0
    } else {
        owed_to(positions.drop_last()) + positions.last().walien_allocation
    }
}

/// Whether the totals of `summary` are the sums over `open`, the open
/// positions of the summary's owner.
pub open spec fn summarizes(summary: UserSummary, open: Seq<UserPosition>) -> bool {
    summary.total_usdc_locked == spent_by(open) && summary.total_walien_alloc == owed_to(open)
}

/// Taking a position out of a list takes its amounts out of the sums.
pub proof fn sums_without(positions: Seq<UserPosition>, i: int)
    requires
        0 <= i < positions.len(),
    ensures
        spent_by(positions.remove(i)) == spent_by(positions) - positions[i].usdc_spent,
        owed_to(positions.remove(i)) == owed_to(positions) - positions[i].walien_allocation,
        0 <= positions[i].usdc_spent <= spent_by(positions),
        0 <= positions[i].walien_allocation <= owed_to(positions),
    decreases positions.len(),
{
    if i == positions.len() - 1 {
        assert(positions.remove(i) =~= positions.drop_last());
        sums_are_not_negative(positions.drop_last());
    } else {
        sums_without(positions.drop_last(), i);
        assert(positions.remove(i).drop_last() =~= positions.drop_last().remove(i));
        assert(positions.remove(i).last() == positions.last());
    }
}

/// The sums over a list of positions are not negative.
pub proof fn sums_are_not_negative(positions: Seq<UserPosition>)
    ensures
        spent_by(positions) >= 0,
        owed_to(positions) >= 0,
    decreases positions.len(),
{
    if positions.len() > 0 {
        sums_are_not_negative(positions.drop_last());
    }
}

/// A summary that holds the sums over its owner's open positions still does
/// so after an accepted purchase, with the new position among them.
pub proof fn purchase_keeps_summary(
    ctx: Buy,
    step: SwapStepComputation,
    min_tokens_out: u64,
    now_ts: i64,
    open: Seq<UserPosition>,
)
    requires
        summarizes(ctx.user_summary, open),
        ctx.refusal(step, min_tokens_out) is None,
    ensures
        summarizes(
            ctx.settled(step, now_ts).user_summary,
            open.push(ctx.settled(step, now_ts).user_account),
        ),
{
    let position = ctx.settled(step, now_ts).user_account;
    assert(open.push(position).drop_last() =~= open);
}

/// A summary that holds the sums over its owner's open positions covers each
/// of them, so that cancelling or claiming an open position never meets the
/// underflow guard; and once the position has left, the summary holds the
/// sums over those that remain.
pub proof fn unwinding_keeps_summary(summary: UserSummary, open: Seq<UserPosition>, i: int)
    requires
        summarizes(summary, open),
        0 <= i < open.len(),
    ensures
        summary.can_debit(open[i].usdc_spent, open[i].walien_allocation),
        summarizes(
            summary.debited(open[i].usdc_spent, open[i].walien_allocation),
            open.remove(i),
        ),
{
    sums_without(open, i);
}

/// Cancelling and claiming leave the curve alone: neither the rate nor the
/// counter of positions nor any other parameter of the pool changes, but for
/// the inventory that a cancellation gives back.
pub proof fn unwinding_keeps_the_curve(
    withdrawal: WithdrawUSDC,
    rollback: RollbackPosition,
    claim: Claim,
)
    ensures
        withdrawal.withdrawn().global_config_account == (GlobalConfig {
            available_for_swap_in_usdc:
                withdrawal.withdrawn().global_config_account.available_for_swap_in_usdc,
            ..withdrawal.global_config_account
        }),
        rollback.rolled_back().global_config_account == (GlobalConfig {
            available_for_swap_in_usdc:
                rollback.rolled_back().global_config_account.available_for_swap_in_usdc,
            ..rollback.global_config_account
        }),
        claim.claimed().global_config_account == claim.global_config_account,
{
}

/// Whether the pool's inventory and what the open positions of all buyers
/// have spent are together within the ceiling.
pub open spec fn within_ceiling(cfg: GlobalConfig, open: Seq<UserPosition>) -> bool {
    cfg.available_for_swap_in_usdc + spent_by(open) <= MAX_USDC_CAP
}

/// A pool that has just been opened is within the ceiling, with no position
/// open.
pub proof fn opening_is_within_ceiling(
    ctx: Initialize,
    initial_sqrt_price_x64: u128,
    tick_upper: i32,
    available_for_swap_in_usdc: u64,
    liquidity: u128,
    fee_bps: u16,
    range: SqrtPriceRange,
    initial_tick: i32,
)
    requires
        ctx.refusal(
            initial_sqrt_price_x64,
            tick_upper,
            available_for_swap_in_usdc,
            range,
            initial_tick,
        ) is None,
    ensures
        within_ceiling(
            ctx.opened(
                initial_sqrt_price_x64,
                tick_upper,
                available_for_swap_in_usdc,
                liquidity,
                fee_bps,
            ),
            Seq::empty(),
        ),
{
}

/// An accepted purchase keeps a pool within the ceiling, with the new
/// position among the open ones: what leaves the inventory is what the
/// position has spent.
pub proof fn purchase_stays_within_ceiling(
    ctx: Buy,
    step: SwapStepComputation,
    min_tokens_out: u64,
    now_ts: i64,
    open: Seq<UserPosition>,
)
    requires
        within_ceiling(ctx.global_config_account, open),
        ctx.refusal(step, min_tokens_out) is None,
    ensures
        within_ceiling(
            ctx.settled(step, now_ts).global_config_account,
            open.push(ctx.settled(step, now_ts).user_account),
        ),
        ctx.settled(step, now_ts).global_config_account.available_for_swap_in_usdc + spent_by(
            open.push(ctx.settled(step, now_ts).user_account),
        ) == ctx.global_config_account.available_for_swap_in_usdc + spent_by(open),
{
    let position = ctx.settled(step, now_ts).user_account;
    assert(open.push(position).drop_last() =~= open);
}

/// Cancelling an open position of a pool within the ceiling never overflows
/// the inventory and keeps the pool within the ceiling, so that the
/// inventory itself never exceeds it; and a claim, which leaves the inventory
/// alone, keeps the pool within the ceiling too.
pub proof fn unwinding_stays_within_ceiling(cfg: GlobalConfig, open: Seq<UserPosition>, i: int)
    requires
        within_ceiling(cfg, open),
        0 <= i < open.len(),
    ensures
        cfg.available_for_swap_in_usdc + open[i].usdc_spent <= MAX_USDC_CAP,
        restocked(cfg, open[i]).available_for_swap_in_usdc <= MAX_USDC_CAP,
        within_ceiling(restocked(cfg, open[i]), open.remove(i)),
        within_ceiling(cfg, open.remove(i)),
{
    sums_without(open, i);
    sums_are_not_negative(open.remove(i));
}

} // verus!
