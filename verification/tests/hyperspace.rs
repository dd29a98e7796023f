use borsh::BorshSerialize;

use hh_markets::common::pubkey::Pubkey;
use hh_markets::common::sys::Clock;
use hh_markets::common::system::{NewAccount, SystemInstruction};
use hh_markets::escrow::state::{Market, Outcome};
use hh_markets::hyperspace_resolver::error::ResolverError;
use hh_markets::hyperspace_resolver::instructions::{
    acknowledge_nft_floor, initialize_nft_floor, resolve_nft_floor, AcknowledgeNftFloor,
    InitializeNftFloor, InitializeNftFloorParams, ResolveNftFloor, ResolveNftFloorParams,
};
use hh_markets::hyperspace_resolver::program;
use hh_markets::hyperspace_resolver::state::NftFloor;
use hh_markets::hyperspace_resolver::utils::unix_timestamp;
use hh_markets::hyperspace_resolver::ErrorCode;

fn key(n: u8) -> Pubkey {
    Pubkey([n; 32])
}

/// The account as the host stores it.
fn serialize(account: &NftFloor, buf: &mut Vec<u8>) {
    account.authority.to_bytes().serialize(buf).unwrap();
    account.market.to_bytes().serialize(buf).unwrap();
    account.acknowledged.serialize(buf).unwrap();
    account.floor_price.serialize(buf).unwrap();
    account.project_id.serialize(buf).unwrap();
}

fn test_account_size(project_id: impl Into<String>) {
    let project_id = project_id.into();

    let expected = NftFloor::account_size(&project_id);

    let account = NftFloor {
        project_id,
        ..Default::default()
    };
    let mut buf = Vec::with_capacity(expected);
    serialize(&account, &mut buf);

    assert_eq!(expected, buf.len());
}

#[test]
fn nft_floor_account_size() {
    test_account_size("");
    test_account_size("foo");
}

#[test]
fn nft_floor_account_size_counts_bytes() {
    assert_eq!(NftFloor::account_size(""), 77);
    assert_eq!(NftFloor::account_size("foo"), 80);
    assert_eq!(NftFloor::account_size("né"), 80);
    test_account_size("né");
    test_account_size("a".repeat(1_000));
}

fn market() -> Market {
    Market {
        creator: key(1),
        resolver: key(70),
        yes_amount: 100,
        yes_filled: 100,
        no_amount: 50,
        no_filled: 50,
        close_ts: 1_000,
        expiry_ts: 2_000,
        resolution_delay: 60,
        ..Default::default()
    }
}

fn initialize_accounts() -> InitializeNftFloor {
    InitializeNftFloor {
        resolver: NewAccount {
            key: key(70),
            lamports: 0,
            bump: Some(250),
        },
        market_key: key(9),
        market: market(),
        creator: key(1),
        program_id: key(80),
        rent: 1_500_000,
    }
}

fn initialize_params() -> InitializeNftFloorParams {
    InitializeNftFloorParams {
        authority: key(71),
        floor_price: 5_000,
        project_id: String::from("degods"),
    }
}

#[test]
fn floor_resolver_is_set_up_and_acknowledges_the_market() {
    let mut ctx = initialize_accounts();
    let (resolver, steps) =
        initialize_nft_floor::handler(&mut ctx, initialize_params(), 1_999).unwrap();
    assert_eq!(resolver.authority, key(71));
    assert_eq!(resolver.market, key(9));
    assert!(!resolver.acknowledged);
    assert_eq!(resolver.floor_price, 5_000);
    assert_eq!(resolver.project_id, "degods");
    assert!(ctx.market.acknowledged);
    assert_eq!(steps.len(), 1);
    match steps[0] {
        SystemInstruction::CreateAccount {
            payer,
            account,
            lamports,
            space,
            owner,
        } => {
            assert_eq!(payer, key(1));
            assert_eq!(account, key(70));
            assert_eq!(lamports, 1_500_000);
            assert_eq!(space, 8 + 77 + 6);
            assert_eq!(owner, key(80));
        }
        _ => panic!("the resolver account is not created"),
    }
}

#[test]
fn floor_resolver_set_up_is_refused() {
    let mut ctx = initialize_accounts();
    assert_eq!(
        program::initialize_nft_floor(&mut ctx, initialize_params(), 2_000).unwrap_err(),
        ErrorCode::TimestampPassed
    );
    assert!(!ctx.market.acknowledged);
    ctx.resolver.bump = None;
    assert_eq!(
        initialize_nft_floor::handler(&mut ctx, initialize_params(), 1_999).unwrap_err(),
        ErrorCode::MissingBumpSeed
    );
    let mut ctx = initialize_accounts();
    ctx.creator = key(2);
    assert_eq!(ctx.validate(), Err(ErrorCode::IncorrectCreator));
    assert_eq!(
        initialize_nft_floor::handler(&mut ctx, initialize_params(), 1_999).unwrap_err(),
        ErrorCode::IncorrectCreator
    );
    ctx.resolver.key = key(72);
    assert_eq!(ctx.validate(), Err(ErrorCode::IncorrectResolver));
    assert_eq!(
        initialize_nft_floor::handler(&mut ctx, initialize_params(), 1_999).unwrap_err(),
        ErrorCode::IncorrectResolver
    );
    assert!(!ctx.market.acknowledged);
}

fn resolve_accounts() -> ResolveNftFloor {
    ResolveNftFloor {
        resolver_key: key(70),
        resolver_market: key(9),
        resolver_authority: key(71),
        resolver_floor_price: 5_000,
        resolver_bump: Some(250),
        market_key: key(9),
        market: market(),
        authority: key(71),
    }
}

#[test]
fn floor_price_decides_the_outcome() {
    for (price, outcome) in [
        (5_000u64, Outcome::Yes),
        (5_001, Outcome::Yes),
        (u64::MAX, Outcome::Yes),
        (4_999, Outcome::No),
        (0, Outcome::No),
    ] {
        let mut ctx = resolve_accounts();
        let params = ResolveNftFloorParams {
            current_floor_price: price,
        };
        assert_eq!(resolve_nft_floor::handler(&mut ctx, params, 2_000), Ok(()));
        assert_eq!(ctx.market.outcome, outcome);
        assert_eq!(ctx.market.outcome_ts, 2_000);
        assert!(!ctx.market.finalized);
    }
}

#[test]
fn floor_resolution_is_refused() {
    let params = ResolveNftFloorParams {
        current_floor_price: 5_000,
    };
    let mut ctx = resolve_accounts();
    assert_eq!(
        program::resolve_nft_floor(&mut ctx, params, 1_999),
        Err(ResolverError::Resolver(ErrorCode::TimestampNotPassed))
    );
    assert_eq!(ctx.market.outcome, Outcome::Open);
    ctx.resolver_bump = None;
    assert_eq!(
        resolve_nft_floor::handler(&mut ctx, params, 2_000),
        Err(ResolverError::Resolver(ErrorCode::MissingBumpSeed))
    );
    let mut ctx = resolve_accounts();
    ctx.authority = key(99);
    assert_eq!(ctx.validate(), Err(ErrorCode::IncorrectAuthority));
    assert_eq!(
        resolve_nft_floor::handler(&mut ctx, params, 2_000),
        Err(ResolverError::Resolver(ErrorCode::IncorrectAuthority))
    );
    ctx.market_key = key(8);
    assert_eq!(ctx.validate(), Err(ErrorCode::IncorrectMarket));
    assert_eq!(
        resolve_nft_floor::handler(&mut ctx, params, 2_000),
        Err(ResolverError::Resolver(ErrorCode::IncorrectMarket))
    );
    // The escrow program refuses a resolver that is not the market's.
    let mut ctx = resolve_accounts();
    ctx.market.resolver = key(73);
    assert_eq!(
        resolve_nft_floor::handler(&mut ctx, params, 2_000),
        Err(ResolverError::Escrow(hh_markets::escrow::ErrorCode::IncorrectResolver))
    );
    assert_eq!(ctx.market.outcome, Outcome::Open);
    assert_eq!(
        ctx.resolve(Outcome::Open, 2_000),
        Err(hh_markets::escrow::ErrorCode::IncorrectResolver)
    );
    // A market that is final is left as it is.
    let mut ctx = resolve_accounts();
    ctx.market.outcome = Outcome::No;
    ctx.market.outcome_ts = 2_000;
    assert_eq!(resolve_nft_floor::handler(&mut ctx, params, 2_060), Ok(()));
    assert!(ctx.market.finalized);
    assert_eq!(ctx.market.outcome, Outcome::No);
}

#[test]
fn floor_resolver_is_acknowledged_once_by_its_authority() {
    let mut ctx = AcknowledgeNftFloor {
        resolver_authority: key(71),
        resolver_acknowledged: false,
        authority: key(99),
    };
    assert_eq!(
        acknowledge_nft_floor::handler(&mut ctx),
        Err(ErrorCode::IncorrectAuthority)
    );
    assert!(!ctx.resolver_acknowledged);
    ctx.authority = key(71);
    assert_eq!(acknowledge_nft_floor::handler(&mut ctx), Ok(()));
    assert!(ctx.resolver_acknowledged);
    assert_eq!(
        acknowledge_nft_floor::handler(&mut ctx),
        Err(ErrorCode::AlreadyAcknowledged)
    );
    assert!(ctx.resolver_acknowledged);
}

#[test]
fn resolver_reads_the_clock_as_it_is() {
    assert_eq!(unix_timestamp(&Clock { unix_timestamp: -5 }), -5);
    assert_eq!(unix_timestamp(&Clock { unix_timestamp: 1_700_000_000 }), 1_700_000_000);
}
