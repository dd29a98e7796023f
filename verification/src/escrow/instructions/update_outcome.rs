//! Setting the outcome of a market.

use vstd::prelude::*;

use crate::common::pubkey::Pubkey;
use crate::escrow::error::ErrorCode;
use crate::escrow::state::market::Market;
use crate::escrow::state::outcome::Outcome;

verus! {

/// Parameters for the [UpdateOutcome] instruction.
#[derive(Clone, Copy, Debug)]
pub struct UpdateOutcomeParams {
    /// The outcome.
    pub outcome: Outcome,
}

/// Allows the resolver to set the outcome of a market.
#[derive(Clone, Copy, Debug)]
pub struct UpdateOutcome {
    /// The market to update.
    pub market: Market,
    /// The market resolver.
    pub resolver: Pubkey,
}

/// Whether a market that is not final may go from `current` to `proposed`
/// at `now`, and the outcome time that it then gets.
///
/// Before expiry a market can only be voided and reopened: open to void
/// takes `now`, void to open takes 0. From expiry on every outcome can be
/// set but open, and takes `now`.
pub open spec fn transition(
    current: Outcome,
    expiry_ts: u64,
    now: u64,
    proposed: Outcome,
) -> Result<u64, ErrorCode> {
    if now < expiry_ts {
        if current == Outcome::Open && proposed == Outcome::Invalid {
            Ok(now)
        } else if current == Outcome::Invalid && proposed == Outcome::Open {
            Ok(0)
        } else {
            Err(ErrorCode::InvalidTransition)
        }
    } else if proposed == Outcome::Open {
        Err(ErrorCode::InvalidTransition)
    } else {
        Ok(now)
    }
}

/// The market after a request at `now`, by `resolver`, to set its outcome to
/// `proposed`, or the reason why it is refused.
///
/// The finalize check runs first. If it finds the market final, that is
/// all: whoever asked, and whatever for. Otherwise the request must come
/// from the market's resolver and be a legal [`transition`].
pub open spec fn update_outcome(
    market: Market,
    resolver: Pubkey,
    now: u64,
    proposed: Outcome,
) -> Result<Market, ErrorCode> {
    match market.after_check(now) {
        Err(e) => Err(e),
        Ok(checked) => {
            if checked.finalized {
                Ok(checked)
            } else if resolver != market.resolver {
                Err(ErrorCode::IncorrectResolver)
            } else {
                match transition(market.outcome, market.expiry_ts, now, proposed) {
                    Err(e) => Err(e),
                    Ok(outcome_ts) => Ok(Market { outcome: proposed, outcome_ts, ..market }),
                }
            }
        },
    }
}

/// What a request to set the outcome does and returns: on success the
/// market is that of [`update_outcome`]; on failure it is untouched and the
/// error is its error.
pub open spec fn outcome_updated(
    before: Market,
    resolver: Pubkey,
    now: u64,
    proposed: Outcome,
    after: Market,
    res: Result<(), ErrorCode>,
) -> bool {
    match update_outcome(before, resolver, now, proposed) {
        Ok(market) => after == market && res == Ok::<(), ErrorCode>(()),
        Err(e) => after == before && res == Err::<(), ErrorCode>(e),
    }
}

impl UpdateOutcome {
    /// Verify that the signing resolver is the market resolver.
    fn verify_resolver(&self) -> (res: Result<(), ErrorCode>)
        ensures
            self.resolver == self.market.resolver ==> res == Ok::<(), ErrorCode>(()),
            self.resolver != self.market.resolver ==> res == Err::<(), ErrorCode>(
                ErrorCode::IncorrectResolver,
            ),
    {
        if self.resolver != self.market.resolver {
            return Err(ErrorCode::IncorrectResolver);
        }
        Ok(())
    }

    /// Verify the that the outcome transition is allowed.
    ///
    /// Returns the `outcome_ts` if the transition is allowed.
    fn verify_transition(&self, now: u64, outcome: Outcome) -> (res: Result<u64, ErrorCode>)
        ensures
            res == transition(self.market.outcome, self.market.expiry_ts, now, outcome),
    {
        // If the market has not expired yet, we can only transition between an
        // `Invalid` or `Open` outcome.
        if now < self.market.expiry_ts {
            return match (self.market.outcome, outcome) {
                // Transitioning from `Open` to `Invalid` is allowed.
                (Outcome::Open, Outcome::Invalid) => Ok(now),
                // Transitioning from `Invalid` to `Open` is allowed.
                //
                // This resets the `outcome_ts` to 0.
                (Outcome::Invalid, Outcome::Open) => Ok(0),
                // Otherwise, the transition is not allowed.
                _ => Err(ErrorCode::InvalidTransition),
            };
        }
        // The market has expired, so transitioning to `Open` is not allowed.
        if outcome == Outcome::Open {
            return Err(ErrorCode::InvalidTransition);
        }
        Ok(now)
    }
}

/// Sets the outcome of a market at `now`. A refused request changes
/// nothing.
pub fn handler(ctx: &mut UpdateOutcome, params: UpdateOutcomeParams, now: u64) -> (res: Result<
    (),
    ErrorCode,
>)
    ensures
        final(ctx).resolver == old(ctx).resolver,
        outcome_updated(
            old(ctx).market,
            old(ctx).resolver,
            now,
            params.outcome,
            final(ctx).market,
            res,
        ),
{
    let UpdateOutcomeParams { outcome } = params;

    let mut market = ctx.market;
    let (is_finalized, now) = match market.is_finalized_and_ts(now) {
        Ok(checked) => checked,
        Err(e) => {
            return Err(e);
        },
    };

    // If finalized, we can exit early.
    //
    // Note that anyone can trigger an auto-finalize, even if they are not the
    // marked resolver.
    if is_finalized {
        ctx.market = market;
        return Ok(());
    }
    // Check that the resolver is the correct one.
    match ctx.verify_resolver() {
        Ok(()) => {},
        Err(e) => {
            return Err(e);
        },
    }
    // Verify the outcome transition.
    let outcome_ts: u64 = match ctx.verify_transition(now, outcome) {
        Ok(outcome_ts) => outcome_ts,
        Err(e) => {
            return Err(e);
        },
    };

    ctx.market.outcome_ts = outcome_ts;
    ctx.market.outcome = outcome;

    Ok(())
}

/// Before expiry the only legal moves are open to void, which takes the
/// time of the move, and void to open, which resets the outcome time to 0.
pub proof fn lemma_transitions_before_expiry(
    current: Outcome,
    expiry_ts: u64,
    now: u64,
    proposed: Outcome,
)
    requires
        now < expiry_ts,
    ensures
        transition(current, expiry_ts, now, proposed) == (if current == Outcome::Open && proposed
            == Outcome::Invalid {
            Ok::<u64, ErrorCode>(now)
        } else if current == Outcome::Invalid && proposed == Outcome::Open {
            Ok::<u64, ErrorCode>(0)
        } else {
            Err::<u64, ErrorCode>(ErrorCode::InvalidTransition)
        }),
        transition(Outcome::Open, expiry_ts, now, Outcome::Yes) is Err,
        transition(Outcome::Open, expiry_ts, now, Outcome::No) is Err,
{
}

/// From expiry on every move is legal but the one back to open.
pub proof fn lemma_transitions_after_expiry(
    current: Outcome,
    expiry_ts: u64,
    now: u64,
    proposed: Outcome,
)
    requires
        now >= expiry_ts,
    ensures
        transition(current, expiry_ts, now, proposed) is Ok <==> proposed != Outcome::Open,
        proposed != Outcome::Open ==> transition(current, expiry_ts, now, proposed) == Ok::<
            u64,
            ErrorCode,
        >(now),
{
}

/// Voiding an open market and reopening it, both before it is final, gives
/// back the market as it was, with an outcome time of 0.
pub proof fn lemma_void_then_reopen(market: Market, first: u64, second: u64)
    requires
        market.wf(),
        market.outcome == Outcome::Open,
        update_outcome(market, market.resolver, first, Outcome::Invalid) is Ok,
        ({
            let voided = update_outcome(market, market.resolver, first, Outcome::Invalid)->Ok_0;
            let reopened = update_outcome(voided, market.resolver, second, Outcome::Open);
            !voided.finalized && reopened is Ok && !reopened->Ok_0.finalized
        }),
    ensures
        update_outcome(
            update_outcome(market, market.resolver, first, Outcome::Invalid)->Ok_0,
            market.resolver,
            second,
            Outcome::Open,
        ) == Ok::<Market, ErrorCode>(market),
        market.outcome_ts == 0,
{
}

/// Once a market is final, no request changes its outcome or anything else
/// of it.
pub proof fn lemma_final_market_keeps_outcome(
    market: Market,
    resolver: Pubkey,
    now: u64,
    proposed: Outcome,
)
    requires
        market.finalized,
    ensures
        update_outcome(market, resolver, now, proposed) == Ok::<Market, ErrorCode>(market),
{
}

/// A request keeps a sound market sound: a yes or a no outcome is set from
/// expiry on only, when a market with an unfilled side is void already.
pub proof fn lemma_update_keeps_sound(
    market: Market,
    resolver: Pubkey,
    now: u64,
    proposed: Outcome,
)
    requires
        market.sound(),
        update_outcome(market, resolver, now, proposed) is Ok,
    ensures
        update_outcome(market, resolver, now, proposed)->Ok_0.sound(),
{
}

/// A request never touches the amounts, and keeps a well-formed market
/// well-formed.
pub proof fn lemma_update_keeps_the_books(
    market: Market,
    resolver: Pubkey,
    now: u64,
    proposed: Outcome,
)
    requires
        update_outcome(market, resolver, now, proposed) is Ok,
    ensures
        ({
            let after = update_outcome(market, resolver, now, proposed)->Ok_0;
            &&& after == Market {
                outcome: after.outcome,
                outcome_ts: after.outcome_ts,
                finalized: after.finalized,
                ..market
            }
            &&& market.wf() ==> after.wf()
        }),
{
}

} // verus!
