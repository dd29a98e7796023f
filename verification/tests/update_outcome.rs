use hh_markets::common::pubkey::Pubkey;
use hh_markets::escrow::instructions::{
    update_outcome, update_state, UpdateOutcome, UpdateOutcomeParams, UpdateState,
    UpdateStateParams,
};
use hh_markets::escrow::program;
use hh_markets::escrow::state::{Market, Outcome, MAX_DELAY};
use hh_markets::escrow::ErrorCode;

fn key(n: u8) -> Pubkey {
    Pubkey([n; 32])
}

fn funded_market() -> Market {
    Market {
        resolver: key(7),
        yes_amount: 100,
        yes_filled: 100,
        no_amount: 50,
        no_filled: 50,
        close_ts: 1_000,
        expiry_ts: 2_000,
        resolution_delay: 60,
        ..Default::default()
    }
}

fn set(ctx: &mut UpdateOutcome, outcome: Outcome, now: u64) -> Result<(), ErrorCode> {
    update_outcome::handler(ctx, UpdateOutcomeParams { outcome }, now)
}

#[test]
fn open_to_yes_is_refused_before_expiry() {
    let mut ctx = UpdateOutcome {
        market: funded_market(),
        resolver: key(7),
    };
    for outcome in [Outcome::Yes, Outcome::No, Outcome::Open] {
        assert_eq!(set(&mut ctx, outcome, 1_999), Err(ErrorCode::InvalidTransition));
        assert_eq!(ctx.market.outcome, Outcome::Open);
        assert_eq!(ctx.market.outcome_ts, 0);
    }
}

#[test]
fn void_then_reopen_resets_the_outcome_time() {
    let mut ctx = UpdateOutcome {
        market: funded_market(),
        resolver: key(7),
    };
    assert_eq!(set(&mut ctx, Outcome::Invalid, 1_500), Ok(()));
    assert_eq!(ctx.market.outcome, Outcome::Invalid);
    assert_eq!(ctx.market.outcome_ts, 1_500);
    assert!(!ctx.market.finalized);
    // From void only open is legal before expiry.
    for outcome in [Outcome::Yes, Outcome::No, Outcome::Invalid] {
        assert_eq!(set(&mut ctx, outcome, 1_510), Err(ErrorCode::InvalidTransition));
    }
    assert_eq!(set(&mut ctx, Outcome::Open, 1_510), Ok(()));
    assert_eq!(ctx.market.outcome, Outcome::Open);
    assert_eq!(ctx.market.outcome_ts, 0);
    assert!(!ctx.market.finalized);
}

#[test]
fn after_expiry_everything_but_open_is_legal() {
    for (i, outcome) in [Outcome::Yes, Outcome::No, Outcome::Invalid].into_iter().enumerate() {
        let mut ctx = UpdateOutcome {
            market: funded_market(),
            resolver: key(7),
        };
        let now = 2_000 + i as u64;
        assert_eq!(program::update_outcome(&mut ctx, UpdateOutcomeParams { outcome }, now), Ok(()));
        assert_eq!(ctx.market.outcome, outcome);
        assert_eq!(ctx.market.outcome_ts, now);
        assert!(!ctx.market.finalized);
        // The resolver can change its mind until the delay has passed.
        assert_eq!(set(&mut ctx, Outcome::No, now + 59), Ok(()));
        assert_eq!(ctx.market.outcome, Outcome::No);
        assert_eq!(ctx.market.outcome_ts, now + 59);
        assert_eq!(set(&mut ctx, Outcome::Open, now + 60), Err(ErrorCode::InvalidTransition));
        assert_eq!(ctx.market.outcome, Outcome::No);
    }
}

#[test]
fn final_market_ignores_requests_from_anyone() {
    let mut ctx = UpdateOutcome {
        market: Market {
            outcome: Outcome::Yes,
            outcome_ts: 2_000,
            ..funded_market()
        },
        resolver: key(99),
    };
    // The delay has passed: the request finalizes the market and is
    // otherwise ignored, though it does not come from the resolver.
    assert_eq!(set(&mut ctx, Outcome::No, 2_060), Ok(()));
    assert!(ctx.market.finalized);
    assert_eq!(ctx.market.outcome, Outcome::Yes);
    assert_eq!(ctx.market.outcome_ts, 2_000);
    ctx.resolver = key(7);
    for outcome in [Outcome::Open, Outcome::No, Outcome::Invalid] {
        assert_eq!(set(&mut ctx, outcome, 5_000), Ok(()));
        assert!(ctx.market.finalized);
        assert_eq!(ctx.market.outcome, Outcome::Yes);
        assert_eq!(ctx.market.outcome_ts, 2_000);
    }
}

#[test]
fn silent_resolver_voids_the_market() {
    let mut ctx = UpdateOutcome {
        market: funded_market(),
        resolver: key(7),
    };
    let deadline = 2_000 + MAX_DELAY as u64;
    assert_eq!(set(&mut ctx, Outcome::Yes, deadline), Ok(()));
    assert!(ctx.market.finalized);
    assert_eq!(ctx.market.outcome, Outcome::Invalid);
    assert_eq!(ctx.market.outcome_ts, 0);
}

#[test]
fn only_the_resolver_sets_the_outcome() {
    let mut ctx = UpdateOutcome {
        market: funded_market(),
        resolver: key(8),
    };
    assert_eq!(set(&mut ctx, Outcome::Yes, 2_000), Err(ErrorCode::IncorrectResolver));
    assert_eq!(set(&mut ctx, Outcome::Invalid, 1_500), Err(ErrorCode::IncorrectResolver));
    assert_eq!(ctx.market.outcome, Outcome::Open);
    assert_eq!(ctx.market.outcome_ts, 0);
}

#[test]
fn failed_update_leaves_the_market_alone() {
    let mut ctx = UpdateOutcome {
        market: Market {
            expiry_ts: u64::MAX,
            ..funded_market()
        },
        resolver: key(7),
    };
    assert_eq!(set(&mut ctx, Outcome::Invalid, 1_500), Err(ErrorCode::CalculationFailure));
    assert_eq!(ctx.market.outcome, Outcome::Open);
}

#[test]
fn update_state_follows_the_same_rules() {
    let mut ctx = UpdateState {
        market: funded_market(),
        resolver: key(7),
    };
    assert_eq!(ctx.can_update(1_999, Outcome::Yes), Err(ErrorCode::InvalidTransition));
    assert_eq!(ctx.can_update(1_999, Outcome::Invalid), Ok(()));
    assert_eq!(ctx.can_update(2_000, Outcome::Yes), Ok(()));
    assert_eq!(ctx.can_update(2_000, Outcome::Open), Err(ErrorCode::InvalidTransition));
    assert_eq!(
        update_state::handler(&mut ctx, UpdateStateParams { outcome: Outcome::Yes }, 1_999),
        Err(ErrorCode::InvalidTransition)
    );
    assert_eq!(
        update_state::handler(&mut ctx, UpdateStateParams { outcome: Outcome::Invalid }, 1_500),
        Ok(())
    );
    assert_eq!(ctx.market.outcome, Outcome::Invalid);
    assert_eq!(ctx.market.outcome_ts, 1_500);
    assert_eq!(ctx.can_update(1_510, Outcome::Open), Ok(()));
    assert_eq!(ctx.can_update(1_510, Outcome::Yes), Err(ErrorCode::InvalidTransition));
    assert_eq!(
        update_state::handler(&mut ctx, UpdateStateParams { outcome: Outcome::Open }, 1_510),
        Ok(())
    );
    assert_eq!(ctx.market.outcome, Outcome::Open);
    assert_eq!(ctx.market.outcome_ts, 0);
    assert_eq!(
        update_state::handler(&mut ctx, UpdateStateParams { outcome: Outcome::No }, 2_001),
        Ok(())
    );
    assert_eq!(ctx.market.outcome, Outcome::No);
    assert_eq!(ctx.market.outcome_ts, 2_001);
    // After the delay the outcome is final, whoever asks.
    ctx.resolver = key(8);
    assert_eq!(ctx.can_update(2_061, Outcome::Yes), Err(ErrorCode::IncorrectResolver));
    assert_eq!(
        update_state::handler(&mut ctx, UpdateStateParams { outcome: Outcome::Yes }, 2_061),
        Ok(())
    );
    assert!(ctx.market.finalized);
    assert_eq!(ctx.market.outcome, Outcome::No);
}
