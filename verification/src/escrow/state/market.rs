//! A market and the rules by which its outcome becomes final.

use vstd::prelude::*;

use crate::common::pubkey::{zero_bytes, Pubkey, PUBKEY_BYTES};
use crate::escrow::error::ErrorCode;
use crate::escrow::state::outcome::Outcome;
use crate::escrow::state::uri::UriResource;

verus! {

/// 30 days max resolution delay.
pub const MAX_DELAY: u32 = 30 * 86_400;

/// Market metadata account.
#[derive(Clone, Copy, Debug)]
pub struct Market {
    /// Creator of the market.
    pub creator: Pubkey,
    /// Resolver for the market.
    pub resolver: Pubkey,
    /// The token this market is denominated in.
    pub token_mint: Pubkey,
    /// The token account to escrow tokens placed on the yes side.
    pub yes_token_account: Pubkey,
    /// The token account to escrow tokens placed on the no side.
    pub no_token_account: Pubkey,
    /// The amount of tokens to fill the yes side.
    pub yes_amount: u64,
    /// The amount of tokens placed on the yes side.
    pub yes_filled: u64,
    /// The amount of tokens to fill the no side.
    pub no_amount: u64,
    /// The amount of tokens placed on the no side.
    pub no_filled: u64,
    /// The timestamp at which the market closes (i.e. does not accept new
    /// funds).
    pub close_ts: u64,
    /// The timestamp at which the market can be resolved.
    pub expiry_ts: u64,
    /// The timestamp of when a market has been set to an outcome. 0 if not set.
    pub outcome_ts: u64,
    /// The delay in seconds before the outcome is finalized.
    pub resolution_delay: u32,
    /// The outcome of the market.
    pub outcome: Outcome,
    /// A flag checking whether the market is finalized.
    pub finalized: bool,
    /// The bump seed for the yes token account.
    pub yes_account_bump: u8,
    /// The bump seed for the no token account.
    pub no_account_bump: u8,
    /// Whether the resolver has acknowledged this market.
    pub acknowledged: bool,
    /// The URI to the market info (i.e. title, description)
    pub uri: UriResource,
}

/// What a finalize check at `now` does to a market and what it reports:
/// on success the market is as [`Market::after_check`] gives it and the
/// report says whether it is final; on failure the market is untouched.
pub open spec fn finalize_check(
    before: Market,
    now: u64,
    after: Market,
    res: Result<bool, ErrorCode>,
) -> bool {
    match before.after_check(now) {
        Ok(market) => after == market && res == Ok::<bool, ErrorCode>(market.finalized),
        Err(e) => after == before && res == Err::<bool, ErrorCode>(e),
    }
}

impl Market {
    /// The number of bytes that a stored market takes.
    pub const LEN: usize = (5 * PUBKEY_BYTES) + (7 * 8) + 4 + Outcome::LEN + 1 + (2 * 1) + 1
        + UriResource::LEN;

    /// What holds of every market that the operations have produced: no
    /// side holds more than it asks for, and an open market has no outcome
    /// time.
    pub open spec fn wf(&self) -> bool {
        &&& self.yes_filled <= self.yes_amount
        &&& self.no_filled <= self.no_amount
        &&& self.outcome == Outcome::Open ==> self.outcome_ts == 0
    }

    /// What holds of every market that the program has opened, whatever
    /// operations it has been through since: it is well-formed, it closes no
    /// later than it expires, and it has a yes or a no outcome only with
    /// both sides filled to their targets.
    pub open spec fn sound(&self) -> bool {
        &&& self.wf()
        &&& self.close_ts <= self.expiry_ts
        &&& self.outcome.is_binary() ==> !self.underfunded()
    }

    /// Whether a side has not been filled to its target.
    pub open spec fn underfunded(&self) -> bool {
        self.yes_filled < self.yes_amount || self.no_filled < self.no_amount
    }

    /// The first moment at which the market is final whatever the resolver
    /// did: [`MAX_DELAY`] seconds past expiry.
    pub open spec fn hard_deadline(&self) -> int {
        self.expiry_ts + MAX_DELAY
    }

    /// The first moment at which a chosen outcome is final: the resolution
    /// delay past the time it was set.
    pub open spec fn dispute_deadline(&self) -> int {
        self.outcome_ts + self.resolution_delay
    }

    /// The market made final as void.
    pub open spec fn voided(self) -> Market {
        Market { finalized: true, outcome: Outcome::Invalid, ..self }
    }

    /// The market made final with the outcome it has; one that is still
    /// open becomes void.
    pub open spec fn locked(self) -> Market {
        if self.outcome == Outcome::Open {
            self.voided()
        } else {
            Market { finalized: true, ..self }
        }
    }

    /// The market as a finalize check at `now` leaves it.
    ///
    /// A final market stays as it is. Otherwise, in this order: a market
    /// that has closed with a side unfilled becomes void; one that is
    /// [`MAX_DELAY`] past its expiry becomes final, void if no outcome was
    /// set; one whose outcome has stood for the resolution delay becomes
    /// final with it. A deadline that does not fit in 64 bits is a
    /// calculation failure.
    pub open spec fn after_check(self, now: u64) -> Result<Market, ErrorCode> {
        if self.finalized {
            Ok(self)
        } else if self.underfunded() && now >= self.close_ts {
            Ok(self.voided())
        } else if self.hard_deadline() > u64::MAX {
            Err(ErrorCode::CalculationFailure)
        } else if now >= self.hard_deadline() {
            Ok(self.locked())
        } else if self.outcome == Outcome::Open {
            Ok(self)
        } else if self.dispute_deadline() > u64::MAX {
            Err(ErrorCode::CalculationFailure)
        } else if now >= self.dispute_deadline() {
            Ok(self.locked())
        } else {
            Ok(self)
        }
    }

    /// Whether the market is final once a finalize check at `now` has run.
    pub open spec fn final_at(self, now: u64) -> bool {
        self.after_check(now) matches Ok(market) && market.finalized
    }

    /// Checks the conditions that make a market final, and makes it final
    /// if one holds.
    fn check_finalized(&mut self, now: u64) -> (res: Result<bool, ErrorCode>)
        requires
            !old(self).finalized,
        ensures
            finalize_check(*old(self), now, *final(self), res),
    {
        // Failed to fill funds.
        if (self.yes_filled < self.yes_amount || self.no_filled < self.no_amount) && now
            >= self.close_ts {
            self.finalized = true;
            self.outcome = Outcome::Invalid;
            return Ok(true);
        }
        // Beyond MAX_DELAY of the expiry.
        let hard_deadline: u64 = match self.expiry_ts.checked_add(MAX_DELAY as u64) {
            Some(deadline) => deadline,
            None => {
                return Err(ErrorCode::CalculationFailure);
            },
        };
        if now >= hard_deadline {
            if self.outcome == Outcome::Open {
                self.outcome = Outcome::Invalid;
            }
            self.finalized = true;
            return Ok(true);
        }
        // Beyond resolution delay of the outcome.
        if self.outcome != Outcome::Open {
            let dispute_deadline: u64 = match self.outcome_ts.checked_add(
                self.resolution_delay as u64,
            ) {
                Some(deadline) => deadline,
                None => {
                    return Err(ErrorCode::CalculationFailure);
                },
            };
            if now >= dispute_deadline {
                self.finalized = true;
                return Ok(true);
            }
        }
        Ok(false)
    }

    /// Checks whether the market is finalized at `now`, additionally
    /// returning the timestamp used in the check.
    ///
    /// If the `finalized` flag is not set, checks the conditions that would
    /// cause the market to be finalized and sets the flag if `true`.
    pub fn is_finalized_and_ts(&mut self, now: u64) -> (res: Result<(bool, u64), ErrorCode>)
        ensures
            match old(self).after_check(now) {
                Ok(market) => *final(self) == market && res == Ok::<(bool, u64), ErrorCode>(
                    (market.finalized, now),
                ),
                Err(e) => *final(self) == *old(self) && res == Err::<(bool, u64), ErrorCode>(e),
            },
    {
        // Already finalized.
        if self.finalized {
            return Ok((true, now));
        }
        match self.check_finalized(now) {
            Ok(finalized) => Ok((finalized, now)),
            Err(e) => Err(e),
        }
    }

    /// Checks whether the market is finalized at `now`.
    ///
    /// If the `finalized` flag is not set, checks the conditions that would
    /// cause the market to be finalized and sets the flag if `true`.
    pub fn is_finalized(&mut self, now: u64) -> (res: Result<bool, ErrorCode>)
        ensures
            finalize_check(*old(self), now, *final(self), res),
    {
        // Already finalized.
        if self.finalized {
            return Ok(true);
        }
        self.check_finalized(now)
    }

    /// Runs the finalize check at `now`, failing if the market is, or has
    /// just become, final.
    ///
    /// The market keeps what the check did to it also when this fails with
    /// [`ErrorCode::AlreadyFinalized`]; an operation that gives up on that
    /// error hands back the market it was given.
    pub fn finalize(&mut self, now: u64) -> (res: Result<(), ErrorCode>)
        ensures
            match old(self).after_check(now) {
                Ok(market) => *final(self) == market && res == (if market.finalized {
                    Err::<(), ErrorCode>(ErrorCode::AlreadyFinalized)
                } else {
                    Ok::<(), ErrorCode>(())
                }),
                Err(e) => *final(self) == *old(self) && res == Err::<(), ErrorCode>(e),
            },
    {
        match self.is_finalized(now) {
            Ok(true) => Err(ErrorCode::AlreadyFinalized),
            Ok(false) => Ok(()),
            Err(e) => Err(e),
        }
    }
}

impl Default for Market {
    /// An open market with no targets, no deposits and no dates.
    fn default() -> (res: Market)
        ensures
            res.creator@ == zero_bytes() && res.resolver@ == zero_bytes(),
            res.token_mint@ == zero_bytes(),
            res.yes_token_account@ == zero_bytes() && res.no_token_account@ == zero_bytes(),
            res.yes_amount == 0 && res.yes_filled == 0,
            res.no_amount == 0 && res.no_filled == 0,
            res.close_ts == 0 && res.expiry_ts == 0 && res.outcome_ts == 0,
            res.resolution_delay == 0,
            res.outcome == Outcome::Open,
            !res.finalized,
            !res.acknowledged,
            res.yes_account_bump == 0 && res.no_account_bump == 0,
            res.uri.wf() && res.uri.len == 0,
            res.wf(),
    {
        Market {
            creator: Pubkey::default(),
            resolver: Pubkey::default(),
            token_mint: Pubkey::default(),
            yes_token_account: Pubkey::default(),
            no_token_account: Pubkey::default(),
            yes_amount: 0,
            yes_filled: 0,
            no_amount: 0,
            no_filled: 0,
            close_ts: 0,
            expiry_ts: 0,
            outcome_ts: 0,
            resolution_delay: 0,
            outcome: Outcome::default(),
            finalized: false,
            yes_account_bump: 0,
            no_account_bump: 0,
            acknowledged: false,
            uri: UriResource::default(),
        }
    }
}

/// Finality is a latch: a finalize check on a final market changes nothing,
/// at whatever time it runs.
pub proof fn lemma_final_market_stays(market: Market, now: u64)
    requires
        market.finalized,
    ensures
        market.after_check(now) == Ok::<Market, ErrorCode>(market),
{
}

/// A second finalize check, at any time, changes nothing once the first has
/// made the market final.
pub proof fn lemma_finalize_idempotent(market: Market, first: u64, second: u64)
    requires
        market.final_at(first),
    ensures
        market.after_check(first).unwrap().after_check(second) == market.after_check(first),
{
}

/// A market that has closed with a side unfilled is void, and final.
pub proof fn lemma_underfunded_market_is_voided(market: Market, now: u64)
    requires
        !market.finalized,
        market.underfunded(),
        now >= market.close_ts,
    ensures
        market.after_check(now) == Ok::<Market, ErrorCode>(market.voided()),
        market.final_at(now),
        market.after_check(now).unwrap().outcome == Outcome::Invalid,
{
}

/// A finalize check touches nothing but the outcome and the final flag. The
/// outcome changes only to void, and only where the market was open or had
/// an unfilled side.
pub proof fn lemma_check_keeps_the_books(market: Market, now: u64)
    requires
        market.after_check(now).is_ok(),
    ensures
        ({
            let after = market.after_check(now).unwrap();
            &&& after == Market { outcome: after.outcome, finalized: after.finalized, ..market }
            &&& market.finalized ==> after.finalized
            &&& after.outcome != market.outcome ==> after.outcome == Outcome::Invalid
                && after.finalized && (market.outcome == Outcome::Open || market.underfunded())
            &&& market.wf() ==> after.wf()
        }),
{
}

/// A finalize check keeps a sound market sound.
pub proof fn lemma_check_keeps_sound(market: Market, now: u64)
    requires
        market.sound(),
        market.after_check(now) is Ok,
    ensures
        market.after_check(now)->Ok_0.sound(),
{
}

/// Time only moves a market towards finality: one that is final at some
/// time is final at every later time at which the check succeeds.
pub proof fn lemma_finality_is_monotonic(market: Market, earlier: u64, later: u64)
    requires
        earlier <= later,
        market.final_at(earlier),
        market.after_check(later).is_ok(),
    ensures
        market.final_at(later),
{
}

} // verus!
