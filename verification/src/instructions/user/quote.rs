//! Asking the price of a purchase without making it.

use vstd::prelude::*;
use crate::errors::ErrorCode;
use crate::state::GlobalConfig;
use crate::utils::{
    answers, calculate_swap_from_config, may_consult, unpriceable, SwapRequest,
    SwapStepComputation,
};

verus! {

/// The records that a quote reads.
#[derive(Clone, Copy, Debug, PartialEq, Eq)]
pub struct Quote {
    pub global_config_account: GlobalConfig,
}

impl Quote {
    /// What the caller of a quote is told when the engine answers `answer`:
    /// the amount that the trade would produce, or the engine's refusal.
    pub open spec fn quoted(answer: Result<SwapStepComputation, ErrorCode>) -> Result<
        u64,
        ErrorCode,
    > {
        match answer {
            Ok(step) => Ok(step.amount_out),
            Err(code) => Err(code),
        }
    }

    /// Whether `r` is what `apply` may return: the reason for which the
    /// amount is not priced, or `quoted` of an answer of the engine.
    pub open spec fn applied<E: FnOnce(SwapRequest) -> Result<SwapStepComputation, ErrorCode>>(
        self,
        amount: u64,
        engine: E,
        r: Result<u64, ErrorCode>,
    ) -> bool {
        match unpriceable(self.global_config_account, amount) {
            Some(code) => r == Err::<u64, ErrorCode>(code),
            None => exists|answer: Result<SwapStepComputation, ErrorCode>|
                #[trigger] answers(self.global_config_account, amount, engine, answer) && r
                    == Quote::quoted(answer),
        }
    }

    /// The allocation that `amount` would buy from the pool as it stands.
    ///
    /// The pool is only read. A zero amount and a pool without liquidity are
    /// refused as pricing refuses them; otherwise the engine is asked once
    /// and the result is `quoted` of its answer.
    pub fn apply<E>(ctx: &Quote, amount: u64, engine: E) -> (r: Result<u64, ErrorCode>) where
        E: FnOnce(SwapRequest) -> Result<SwapStepComputation, ErrorCode>,

        requires
            may_consult(ctx.global_config_account, amount, engine),
        ensures
            ctx.applied(amount, engine, r),
    {
        let answer = calculate_swap_from_config(&ctx.global_config_account, amount, engine);
        match answer {
            Ok(step) => Ok(step.amount_out),
            Err(code) => Err(code),
        }
    }
}

} // verus!
