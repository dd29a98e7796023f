//! Setting the outcome of a market, as resolver programs ask for it.

use vstd::prelude::*;

use crate::common::pubkey::Pubkey;
use crate::escrow::error::ErrorCode;
use crate::escrow::instructions::update_outcome::{outcome_updated, transition};
use crate::escrow::state::market::Market;
use crate::escrow::state::outcome::Outcome;

verus! {

/// Parameters for the [UpdateState] instruction.
#[derive(Clone, Copy, Debug)]
pub struct UpdateStateParams {
    /// The outcome.
    pub outcome: Outcome,
}

/// Allows the resolver to set the outcome of a market.
#[derive(Clone, Copy, Debug)]
pub struct UpdateState {
    /// The market to update.
    pub market: Market,
    /// The market resolver.
    pub resolver: Pubkey,
}

impl UpdateState {
    /// Legal updates:
    /// - Before the expiry ts:
    ///   - Open => Invalid, Invalid => Open (latter resets outcome_ts to 0)
    /// - After the expiry ts:
    ///   - Cannot return to Open.
    ///
    /// Finalization checks should occur before this check.
    pub fn can_update(&self, now: u64, outcome: Outcome) -> (res: Result<(), ErrorCode>)
        ensures
            res == (if self.resolver != self.market.resolver {
                Err::<(), ErrorCode>(ErrorCode::IncorrectResolver)
            } else if transition(self.market.outcome, self.market.expiry_ts, now, outcome) is Ok {
                Ok::<(), ErrorCode>(())
            } else {
                Err::<(), ErrorCode>(ErrorCode::InvalidTransition)
            }),
    {
        if self.resolver != self.market.resolver {
            return Err(ErrorCode::IncorrectResolver);
        }
        if now < self.market.expiry_ts {
            let legal_transition = match self.market.outcome {
                Outcome::Open => matches!(outcome, Outcome::Invalid),
                Outcome::Yes => false,
                Outcome::No => false,
                Outcome::Invalid => matches!(outcome, Outcome::Open),
            };

            if legal_transition {
                return Ok(());
            }
            return Err(ErrorCode::InvalidTransition);
        }
        if outcome == Outcome::Open {
            return Err(ErrorCode::InvalidTransition);
        }
        Ok(())
    }
}

/// Sets the outcome of a market at `now`. A refused request changes
/// nothing.
pub fn handler(ctx: &mut UpdateState, params: UpdateStateParams, now: u64) -> (res: Result<
    (),
    ErrorCode,
>)
    ensures
        final(ctx).resolver == old(ctx).resolver,
        outcome_updated(
            old(ctx).market,
            old(ctx).resolver,
            now,
            params.outcome,
            final(ctx).market,
            res,
        ),
{
    let UpdateStateParams { outcome } = params;
    let mut market = ctx.market;
    let is_finalized = match market.is_finalized(now) {
        Ok(is_finalized) => is_finalized,
        Err(e) => {
            return Err(e);
        },
    };

    // If auto-finalize is true, we can exit early. Note that anyone can trigger
    // an auto-finalize, even if they are not the marked resolver.
    if is_finalized {
        ctx.market = market;
        return Ok(());
    }
    // If not finalized, we can set updates if we are past the expiry timestamp.
    // At this point we should check that the resolver is the correct one.
    match ctx.can_update(now, outcome) {
        Ok(()) => {},
        Err(e) => {
            return Err(e);
        },
    }

    if outcome == Outcome::Open {
        ctx.market.outcome_ts = 0;
    } else {
        ctx.market.outcome_ts = now;
    }
    ctx.market.outcome = outcome;

    Ok(())
}

} // verus!
