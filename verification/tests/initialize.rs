use hh_markets::common::pubkey::{Pubkey, PUBKEY_BYTES};
use hh_markets::common::system::{init_account, NewAccount, SystemInstruction};
use hh_markets::common::traits::KeyRef;
use hh_markets::escrow::instructions::initialize_global_state::ProgramData;
use hh_markets::escrow::instructions::initialize_market::EscrowStep;
use hh_markets::escrow::instructions::{
    initialize_global_state, initialize_market, initialize_user_position, resolver_acknowledge,
    set_global_state, InitializeGlobalState, InitializeGlobalStateParams, InitializeMarket,
    InitializeMarketParams, InitializeUserPosition, ResolverAcknowledge, SetGlobalState,
    SetGlobalStateParams,
};
use hh_markets::escrow::program;
use hh_markets::escrow::state::{GlobalState, Market, Outcome, UriResource, UserPosition};
use hh_markets::escrow::utils::TokenAccount;
use hh_markets::escrow::ErrorCode;

fn key(n: u8) -> Pubkey {
    Pubkey([n; 32])
}

fn market_accounts() -> InitializeMarket {
    InitializeMarket {
        market: Market::default(),
        authority: key(30),
        creator: key(1),
        token_mint: key(3),
        yes_token_account: NewAccount {
            key: key(10),
            lamports: 0,
            bump: Some(255),
        },
        no_token_account: NewAccount {
            key: key(11),
            lamports: 5,
            bump: Some(254),
        },
        token_program: key(40),
        token_account_len: 165,
        token_account_rent: 2_039_280,
    }
}

fn market_params() -> InitializeMarketParams {
    InitializeMarketParams {
        close_ts: 1_000,
        expiry_ts: 2_000,
        resolution_delay: 60,
        yes_amount: 100,
        no_amount: 50,
        resolver: key(7),
        uri: String::from("https://example.com/market.json"),
    }
}

#[test]
fn new_market_is_open_and_empty() {
    let mut ctx = market_accounts();
    let steps = initialize_market::handler(&mut ctx, market_params(), 500).unwrap();
    let market = ctx.market;
    assert_eq!(market.creator, key(1));
    assert_eq!(market.resolver, key(7));
    assert_eq!(market.token_mint, key(3));
    assert_eq!(market.yes_token_account, key(10));
    assert_eq!(market.no_token_account, key(11));
    assert_eq!(market.yes_amount, 100);
    assert_eq!(market.yes_filled, 0);
    assert_eq!(market.no_amount, 50);
    assert_eq!(market.no_filled, 0);
    assert_eq!(market.close_ts, 1_000);
    assert_eq!(market.expiry_ts, 2_000);
    assert_eq!(market.outcome_ts, 0);
    assert_eq!(market.resolution_delay, 60);
    assert_eq!(market.outcome, Outcome::Open);
    assert!(!market.finalized);
    assert!(!market.acknowledged);
    assert_eq!(market.yes_account_bump, 255);
    assert_eq!(market.no_account_bump, 254);
    let uri = b"https://example.com/market.json";
    assert_eq!(market.uri.len as usize, uri.len());
    assert_eq!(&market.uri.uri[..uri.len()], uri);
    assert!(market.uri.uri[uri.len()..].iter().all(|b| *b == 0));

    // The yes escrow is created; the no escrow holds lamports already, so
    // it is topped up, allocated and assigned.
    assert_eq!(steps.len(), 6);
    match steps[0] {
        EscrowStep::System(SystemInstruction::CreateAccount {
            payer,
            account,
            lamports,
            space,
            owner,
        }) => {
            assert_eq!(payer, key(1));
            assert_eq!(account, key(10));
            assert_eq!(lamports, 2_039_280);
            assert_eq!(space, 165);
            assert_eq!(owner, key(40));
        }
        _ => panic!("the yes escrow is not created"),
    }
    match steps[1] {
        EscrowStep::InitializeAccount {
            account,
            mint,
            authority,
        } => {
            assert_eq!(account, key(10));
            assert_eq!(mint, key(3));
            assert_eq!(authority, key(30));
        }
        _ => panic!("the yes escrow is not initialized"),
    }
    match steps[2] {
        EscrowStep::System(SystemInstruction::Transfer {
            payer,
            account,
            lamports,
        }) => {
            assert_eq!(payer, key(1));
            assert_eq!(account, key(11));
            assert_eq!(lamports, 2_039_275);
        }
        _ => panic!("the no escrow is not topped up"),
    }
    match steps[3] {
        EscrowStep::System(SystemInstruction::Allocate { account, space }) => {
            assert_eq!(account, key(11));
            assert_eq!(space, 165);
        }
        _ => panic!("the no escrow is not allocated"),
    }
    match steps[4] {
        EscrowStep::System(SystemInstruction::Assign { account, owner }) => {
            assert_eq!(account, key(11));
            assert_eq!(owner, key(40));
        }
        _ => panic!("the no escrow is not assigned"),
    }
    match steps[5] {
        EscrowStep::InitializeAccount {
            account,
            mint,
            authority,
        } => {
            assert_eq!(account, key(11));
            assert_eq!(mint, key(3));
            assert_eq!(authority, key(30));
        }
        _ => panic!("the no escrow is not initialized"),
    }
}

#[test]
fn market_parameters_are_validated() {
    let refused = |params: InitializeMarketParams, now: u64| {
        let mut ctx = market_accounts();
        let res = program::initialize_market(&mut ctx, params, now).map(|steps| steps.len());
        // A refused request leaves the record as it was.
        if res.is_err() {
            assert_eq!(ctx.market.yes_amount, 0);
            assert_eq!(ctx.market.close_ts, 0);
            assert_eq!(ctx.market.uri.len, 0);
        }
        res
    };
    assert_eq!(
        refused(
            InitializeMarketParams {
                yes_amount: 0,
                ..market_params()
            },
            500
        ),
        Err(ErrorCode::ZeroTokensToFill)
    );
    assert_eq!(
        refused(
            InitializeMarketParams {
                no_amount: 0,
                ..market_params()
            },
            500
        ),
        Err(ErrorCode::ZeroTokensToFill)
    );
    assert_eq!(refused(market_params(), 1_001), Err(ErrorCode::InvalidCloseTimestamp));
    assert_eq!(refused(market_params(), 1_000).is_ok(), true);
    assert_eq!(
        refused(
            InitializeMarketParams {
                expiry_ts: 999,
                ..market_params()
            },
            500
        ),
        Err(ErrorCode::InvalidExpiryTimestamp)
    );
    assert_eq!(
        refused(
            InitializeMarketParams {
                expiry_ts: 1_000,
                ..market_params()
            },
            500
        )
        .is_ok(),
        true
    );
    assert_eq!(
        refused(
            InitializeMarketParams {
                uri: "a".repeat(257),
                ..market_params()
            },
            500
        ),
        Err(ErrorCode::InvalidMarketResource)
    );
    assert_eq!(
        refused(
            InitializeMarketParams {
                uri: "a".repeat(256),
                ..market_params()
            },
            500
        )
        .is_ok(),
        true
    );
    // Zero targets are reported before a close time that has passed.
    assert_eq!(
        refused(
            InitializeMarketParams {
                yes_amount: 0,
                expiry_ts: 0,
                ..market_params()
            },
            5_000
        ),
        Err(ErrorCode::ZeroTokensToFill)
    );

    let mut ctx = market_accounts();
    ctx.no_token_account.bump = None;
    assert_eq!(
        initialize_market::handler(&mut ctx, market_params(), 500).unwrap_err(),
        ErrorCode::MissingBumpSeed
    );
    assert_eq!(ctx.market.yes_amount, 0);
}

#[test]
fn uri_is_stored_with_its_length() {
    let uri = UriResource::validate("").unwrap();
    assert_eq!(uri.len, 0);
    assert!(uri.uri.iter().all(|b| *b == 0));

    let uri = UriResource::validate("ipfs://abc").unwrap();
    assert_eq!(uri.len, 10);
    assert_eq!(&uri.uri[..10], b"ipfs://abc");
    assert!(uri.uri[10..].iter().all(|b| *b == 0));

    // The limit counts bytes, not characters.
    let long = "é".repeat(128);
    let uri = UriResource::validate(&long).unwrap();
    assert_eq!(uri.len, 256);
    assert_eq!(&uri.uri[..], long.as_bytes());
    let too_long = format!("{}a", long);
    assert_eq!(
        UriResource::validate(&too_long).unwrap_err(),
        ErrorCode::InvalidMarketResource
    );
    assert_eq!(UriResource::LEN, 258);
    assert_eq!(UriResource::default().len, 0);
}

#[test]
fn record_sizes() {
    assert_eq!(PUBKEY_BYTES, 32);
    assert_eq!(Outcome::LEN, 1);
    assert_eq!(UserPosition::LEN, 48);
    assert_eq!(GlobalState::LEN, 66);
    assert_eq!(Market::LEN, 160 + 56 + 4 + 1 + 1 + 2 + 1 + 258);
    assert_eq!(Outcome::default(), Outcome::Open);
}

#[test]
fn new_position_is_empty() {
    let mut ctx = InitializeUserPosition {
        user: key(1),
        payer: key(2),
        market_key: key(9),
        market: Market::default(),
        user_position: UserPosition {
            market: key(0),
            yes_amount: 7,
            no_amount: 8,
        },
    };
    assert_eq!(initialize_user_position::handler(&mut ctx), Ok(()));
    assert_eq!(ctx.user_position.market, key(9));
    assert_eq!(ctx.user_position.yes_amount, 0);
    assert_eq!(ctx.user_position.no_amount, 0);
    assert_eq!(program::initialize_user_position(&mut ctx), Ok(()));
    assert_eq!(ctx.user_position.market, key(9));
    let position = UserPosition::default();
    assert_eq!(position.market, key(0));
    assert_eq!((position.yes_amount, position.no_amount), (0, 0));
}

fn global_state_accounts() -> InitializeGlobalState {
    InitializeGlobalState {
        global_state: GlobalState::default(),
        authority: key(50),
        global_state_owner: key(20),
        fee_wallet: key(21),
        escrow_programdata_address: Some(key(51)),
        program_data: ProgramData {
            key: key(51),
            upgrade_authority_address: Some(key(50)),
        },
        payer: key(2),
    }
}

#[test]
fn global_state_is_set_up_by_the_upgrade_authority() {
    let mut ctx = global_state_accounts();
    let params = InitializeGlobalStateParams {
        protocol_fee_bps: 250,
    };
    assert_eq!(initialize_global_state::handler(&mut ctx, params), Ok(()));
    assert_eq!(ctx.global_state.authority, key(20));
    assert_eq!(ctx.global_state.fee_wallet, key(21));
    assert_eq!(ctx.global_state.protocol_fee_bps.get(), 250);

    let mut ctx = global_state_accounts();
    let params = InitializeGlobalStateParams {
        protocol_fee_bps: 10_001,
    };
    assert_eq!(
        program::initialize_global_state(&mut ctx, params),
        Err(ErrorCode::FeeTooHigh)
    );
    assert_eq!(ctx.global_state.authority, key(0));
    assert_eq!(ctx.global_state.protocol_fee_bps.get(), 0);

    let params = InitializeGlobalStateParams {
        protocol_fee_bps: 10_000,
    };
    let mut ctx = global_state_accounts();
    ctx.escrow_programdata_address = Some(key(52));
    assert_eq!(ctx.validate(), Err(ErrorCode::InvalidProgramData));
    ctx.escrow_programdata_address = None;
    assert_eq!(
        initialize_global_state::handler(&mut ctx, params),
        Err(ErrorCode::InvalidProgramData)
    );
    let mut ctx = global_state_accounts();
    ctx.program_data.upgrade_authority_address = Some(key(53));
    assert_eq!(ctx.validate(), Err(ErrorCode::InvalidProgramUpgradeAuthority));
    ctx.program_data.upgrade_authority_address = None;
    assert_eq!(
        initialize_global_state::handler(&mut ctx, params),
        Err(ErrorCode::InvalidProgramUpgradeAuthority)
    );
    assert_eq!(ctx.global_state.authority, key(0));
}

#[test]
fn global_state_is_changed_by_its_authority_only() {
    let state = GlobalState {
        authority: key(20),
        fee_wallet: key(21),
        protocol_fee_bps: hh_markets::escrow::state::Bps::new(250).unwrap(),
    };
    let params = SetGlobalStateParams {
        new_authority: key(60),
        new_protocol_fee_bps: 300,
        new_fee_wallet: key(61),
    };
    let mut ctx = SetGlobalState {
        global_state: state,
        authority: key(99),
    };
    assert_eq!(
        set_global_state::handler(&mut ctx, params),
        Err(ErrorCode::IncorrectGlobalStateAuthority)
    );
    assert_eq!(ctx.global_state.authority, key(20));
    assert_eq!(ctx.global_state.fee_wallet, key(21));
    assert_eq!(ctx.global_state.protocol_fee_bps.get(), 250);

    ctx.authority = key(20);
    let too_high = SetGlobalStateParams {
        new_protocol_fee_bps: 10_001,
        ..params
    };
    assert_eq!(
        program::set_global_state(&mut ctx, too_high),
        Err(ErrorCode::FeeTooHigh)
    );
    assert_eq!(ctx.global_state.authority, key(20));
    assert_eq!(ctx.global_state.fee_wallet, key(21));
    assert_eq!(ctx.global_state.protocol_fee_bps.get(), 250);

    assert_eq!(set_global_state::handler(&mut ctx, params), Ok(()));
    assert_eq!(ctx.global_state.authority, key(60));
    assert_eq!(ctx.global_state.fee_wallet, key(61));
    assert_eq!(ctx.global_state.protocol_fee_bps.get(), 300);
    // The former authority has handed over.
    assert_eq!(
        set_global_state::handler(&mut ctx, params),
        Err(ErrorCode::IncorrectGlobalStateAuthority)
    );
}

#[test]
fn market_is_acknowledged_by_its_resolver_only() {
    let mut ctx = ResolverAcknowledge {
        market: Market {
            resolver: key(7),
            ..Default::default()
        },
        resolver: key(8),
    };
    assert_eq!(
        resolver_acknowledge::handler(&mut ctx),
        Err(ErrorCode::IncorrectResolver)
    );
    assert!(!ctx.market.acknowledged);
    ctx.resolver = key(7);
    assert_eq!(program::resolver_acknowledge(&mut ctx), Ok(()));
    assert!(ctx.market.acknowledged);
}

#[test]
fn account_set_up_depends_on_what_the_account_holds() {
    let steps = |lamports: u64, required: u64| {
        init_account(&key(1), &key(2), lamports, required, 72, &key(3))
    };

    let created = steps(0, 1_000);
    assert_eq!(created.len(), 1);
    assert!(matches!(
        created[0],
        SystemInstruction::CreateAccount {
            lamports: 1_000,
            space: 72,
            ..
        }
    ));

    let topped_up = steps(400, 1_000);
    assert_eq!(topped_up.len(), 3);
    assert!(matches!(topped_up[0], SystemInstruction::Transfer { lamports: 600, .. }));
    assert!(matches!(topped_up[1], SystemInstruction::Allocate { space: 72, .. }));
    assert!(matches!(topped_up[2], SystemInstruction::Assign { .. }));

    for lamports in [1_000u64, 1_001, u64::MAX] {
        let funded = steps(lamports, 1_000);
        assert_eq!(funded.len(), 2);
        assert!(matches!(funded[0], SystemInstruction::Allocate { space: 72, .. }));
        assert!(matches!(funded[1], SystemInstruction::Assign { .. }));
    }
    // An account needs a lamport at the least; one that holds any has it.
    assert_eq!(steps(1, 0).len(), 2);
    assert_eq!(steps(0, 0).len(), 1);
}

#[test]
fn addresses_compare_by_their_bytes() {
    let mut bytes = [7u8; 32];
    let a = Pubkey::new_from_array(bytes);
    assert_eq!(a, key(7));
    assert_eq!(a.to_bytes(), bytes);
    for i in 0..32 {
        bytes[i] = 8;
        assert_ne!(Pubkey(bytes), key(7));
        bytes[i] = 7;
    }
    assert_eq!(Pubkey::default(), key(0));
    assert_eq!(*a.key_ref(), a);
    let account = TokenAccount {
        key: key(2),
        mint: key(3),
        owner: key(1),
    };
    assert_eq!(*account.key_ref(), key(2));
}
