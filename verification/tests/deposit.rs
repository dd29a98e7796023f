use hh_markets::common::pubkey::Pubkey;
use hh_markets::escrow::instructions::deposit;
use hh_markets::escrow::instructions::{Deposit, DepositParams};
use hh_markets::escrow::program;
use hh_markets::escrow::state::{Market, Outcome, UserPosition, MAX_DELAY};
use hh_markets::escrow::utils::{TokenAccount, Transfer};
use hh_markets::escrow::ErrorCode;

fn key(n: u8) -> Pubkey {
    Pubkey([n; 32])
}

fn accounts(market: Market) -> Deposit {
    Deposit {
        market: Market {
            yes_token_account: key(10),
            no_token_account: key(11),
            ..market
        },
        user: key(1),
        user_position: UserPosition {
            market: key(9),
            yes_amount: 0,
            no_amount: 0,
        },
        user_token_account: TokenAccount {
            key: key(2),
            mint: key(3),
            owner: key(1),
        },
        yes_token_account: key(10),
        no_token_account: key(11),
    }
}

fn open_market() -> Market {
    Market {
        yes_amount: 100,
        yes_filled: 90,
        no_amount: 50,
        no_filled: 0,
        close_ts: 1_000,
        expiry_ts: 2_000,
        resolution_delay: 60,
        ..Default::default()
    }
}

fn amounts(transfers: &[Transfer]) -> Vec<u64> {
    transfers.iter().map(|t| t.amount).collect()
}

#[test]
fn partial_deposit_is_clipped_to_the_room() {
    let mut ctx = accounts(open_market());
    let params = DepositParams {
        yes_amount: 20,
        no_amount: 0,
        allow_partial: true,
    };
    let transfers = deposit::handler(&mut ctx, params, 500).unwrap();
    assert_eq!(amounts(&transfers), vec![10, 0]);
    assert_eq!(ctx.market.yes_filled, 100);
    assert_eq!(ctx.market.no_filled, 0);
    assert_eq!(ctx.user_position.yes_amount, 10);
    assert_eq!(ctx.user_position.no_amount, 0);
}

#[test]
fn deposit_beyond_the_room_is_refused_without_partial() {
    let before = accounts(open_market());
    let mut ctx = before;
    let params = DepositParams {
        yes_amount: 20,
        no_amount: 0,
        allow_partial: false,
    };
    assert_eq!(
        deposit::handler(&mut ctx, params, 500).unwrap_err(),
        ErrorCode::OverAllowedAmount
    );
    assert_eq!(ctx.market.yes_filled, before.market.yes_filled);
    assert_eq!(ctx.user_position.yes_amount, 0);

    // The no side is checked too.
    let params = DepositParams {
        yes_amount: 10,
        no_amount: 51,
        allow_partial: false,
    };
    assert_eq!(
        deposit::handler(&mut ctx, params, 500).unwrap_err(),
        ErrorCode::OverAllowedAmount
    );
    assert_eq!(ctx.market.yes_filled, 90);
}

#[test]
fn deposit_within_the_room_is_taken_whole() {
    let mut ctx = accounts(open_market());
    ctx.user_position.yes_amount = 5;
    ctx.user_position.no_amount = 7;
    let params = DepositParams {
        yes_amount: 10,
        no_amount: 20,
        allow_partial: false,
    };
    let transfers = program::deposit(&mut ctx, params, 999).unwrap();
    assert_eq!(transfers.len(), 2);
    assert_eq!(transfers[0].from, key(2));
    assert_eq!(transfers[0].to, key(10));
    assert_eq!(transfers[0].authority, key(1));
    assert_eq!(transfers[0].amount, 10);
    assert_eq!(transfers[0].signer_bump, None);
    assert_eq!(transfers[1].from, key(2));
    assert_eq!(transfers[1].to, key(11));
    assert_eq!(transfers[1].authority, key(1));
    assert_eq!(transfers[1].amount, 20);
    assert_eq!(transfers[1].signer_bump, None);
    assert_eq!(ctx.market.yes_filled, 100);
    assert_eq!(ctx.market.no_filled, 20);
    assert_eq!(ctx.user_position.yes_amount, 15);
    assert_eq!(ctx.user_position.no_amount, 27);
    assert!(!ctx.market.finalized);
    assert_eq!(ctx.market.outcome, Outcome::Open);
}

#[test]
fn closed_market_takes_no_deposit() {
    let mut ctx = accounts(open_market());
    let params = DepositParams {
        yes_amount: 1,
        no_amount: 1,
        allow_partial: true,
    };
    assert_eq!(
        deposit::handler(&mut ctx, params, 1_000).unwrap_err(),
        ErrorCode::MarketClosed
    );
    assert_eq!(
        deposit::handler(&mut ctx, params, 5_000).unwrap_err(),
        ErrorCode::MarketClosed
    );
    // The refused deposit did not finalize the stored market.
    assert!(!ctx.market.finalized);
    assert_eq!(ctx.market.outcome, Outcome::Open);
}

#[test]
fn final_market_takes_no_deposit() {
    let mut ctx = accounts(Market {
        finalized: true,
        outcome: Outcome::Invalid,
        ..open_market()
    });
    let params = DepositParams {
        yes_amount: 1,
        no_amount: 1,
        allow_partial: true,
    };
    assert_eq!(
        deposit::handler(&mut ctx, params, 500).unwrap_err(),
        ErrorCode::AlreadyFinalized
    );

    // A market that the check finalizes just now takes none either, and is
    // handed back as it was.
    let mut ctx = accounts(Market {
        outcome: Outcome::Invalid,
        outcome_ts: 100,
        ..open_market()
    });
    assert_eq!(
        deposit::handler(&mut ctx, params, 160).unwrap_err(),
        ErrorCode::AlreadyFinalized
    );
    assert!(!ctx.market.finalized);
    assert_eq!(deposit::handler(&mut ctx, params, 159).map(|t| amounts(&t)), Ok(vec![1, 1]));
}

#[test]
fn deposit_reports_calculation_failures() {
    // More filled than asked for.
    let mut ctx = accounts(Market {
        yes_filled: 101,
        ..open_market()
    });
    let params = DepositParams {
        yes_amount: 0,
        no_amount: 0,
        allow_partial: true,
    };
    assert_eq!(
        deposit::handler(&mut ctx, params, 500).unwrap_err(),
        ErrorCode::CalculationFailure
    );
    // A position that would leave 64 bits.
    let mut ctx = accounts(open_market());
    ctx.user_position.yes_amount = u64::MAX - 5;
    let params = DepositParams {
        yes_amount: 6,
        no_amount: 0,
        allow_partial: false,
    };
    assert_eq!(
        deposit::handler(&mut ctx, params, 500).unwrap_err(),
        ErrorCode::CalculationFailure
    );
    assert_eq!(ctx.market.yes_filled, 90);
    assert_eq!(ctx.user_position.yes_amount, u64::MAX - 5);
    // A deadline that would leave 64 bits.
    let mut ctx = accounts(Market {
        expiry_ts: u64::MAX - (MAX_DELAY as u64) + 1,
        ..open_market()
    });
    assert_eq!(
        deposit::handler(&mut ctx, params, 500).unwrap_err(),
        ErrorCode::CalculationFailure
    );
}

#[test]
fn deposit_checks_the_accounts() {
    let params = DepositParams {
        yes_amount: 1,
        no_amount: 1,
        allow_partial: false,
    };
    let good = accounts(open_market());
    assert_eq!(good.validate(), Ok(()));

    let mut ctx = good;
    ctx.user_token_account.key = key(10);
    assert_eq!(ctx.validate(), Err(ErrorCode::UserAccountCannotBeMarketAccount));
    assert_eq!(
        deposit::handler(&mut ctx, params, 500).unwrap_err(),
        ErrorCode::UserAccountCannotBeMarketAccount
    );
    let mut ctx = good;
    ctx.user_token_account.key = key(11);
    assert_eq!(ctx.validate(), Err(ErrorCode::UserAccountCannotBeMarketAccount));
    let mut ctx = good;
    ctx.user_token_account.owner = key(99);
    assert_eq!(ctx.validate(), Err(ErrorCode::UserAccountIncorrectOwner));
    let mut ctx = good;
    ctx.yes_token_account = key(12);
    assert_eq!(ctx.validate(), Err(ErrorCode::IncorrectYesEscrow));
    let mut ctx = good;
    ctx.no_token_account = key(12);
    assert_eq!(ctx.validate(), Err(ErrorCode::IncorrectNoEscrow));
    assert_eq!(
        deposit::handler(&mut ctx, params, 500).unwrap_err(),
        ErrorCode::IncorrectNoEscrow
    );
    assert_eq!(ctx.market.yes_filled, 90);
}

#[test]
fn verify_deposit_changes_nothing() {
    let mut ctx = accounts(open_market());
    assert_eq!(ctx.verify_deposit(500, 20, 60, true), Ok((10, 50)));
    assert_eq!(ctx.verify_deposit(500, 5, 5, false), Ok((5, 5)));
    assert_eq!(ctx.verify_deposit(500, 11, 5, false), Err(ErrorCode::OverAllowedAmount));
    assert_eq!(ctx.verify_deposit(1_000, 5, 5, false), Err(ErrorCode::MarketClosed));
    assert_eq!(ctx.market.yes_filled, 90);
    assert_eq!(ctx.market.no_filled, 0);
    assert_eq!(ctx.user_position.yes_amount, 0);
}
