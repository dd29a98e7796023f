//! Setting up the protocol-wide settings.

use vstd::prelude::*;

use crate::common::pubkey::Pubkey;
use crate::escrow::error::ErrorCode;
use crate::escrow::state::bps::Bps;
use crate::escrow::state::global_state::GlobalState;

verus! {

/// Parameters for initializing the global state.
#[derive(Clone, Copy, Debug)]
pub struct InitializeGlobalStateParams {
    /// The protocol fee (in basis points).
    pub protocol_fee_bps: u16,
}

/// What the program reads of the account that holds a program's code.
#[derive(Clone, Copy, Debug)]
pub struct ProgramData {
    /// The address of the account.
    pub key: Pubkey,
    /// Who may upgrade the program, if anyone.
    pub upgrade_authority_address: Option<Pubkey>,
}

/// Initializes a global state that holds protocol fee parameters.
#[derive(Clone, Copy, Debug)]
pub struct InitializeGlobalState {
    /// The global state account to initialize.
    pub global_state: GlobalState,
    /// The program's upgrade authority.
    pub authority: Pubkey,
    /// The owner for the global state.
    pub global_state_owner: Pubkey,
    /// The account that will hold protocol fees.
    pub fee_wallet: Pubkey,
    /// The address where the escrow program keeps its program data, if it
    /// has any. Provided here to check the upgrade authority.
    pub escrow_programdata_address: Option<Pubkey>,
    /// The escrow program's program data account. Provided to check the
    /// upgrade authority.
    pub program_data: ProgramData,
    /// Payer for the global state account.
    pub payer: Pubkey,
}

/// The settings after their initialization, or the reason why it is
/// refused: accounts that do not show the signer to be the program's
/// upgrade authority, or a fee of more than 10000 basis points.
pub open spec fn initialize_global_state(
    ctx: InitializeGlobalState,
    params: InitializeGlobalStateParams,
) -> Result<GlobalState, ErrorCode> {
    if ctx.check_accounts() is Err {
        Err(ctx.check_accounts()->Err_0)
    } else if params.protocol_fee_bps > Bps::MAX {
        Err(ErrorCode::FeeTooHigh)
    } else {
        Ok(
            GlobalState {
                authority: ctx.global_state_owner,
                fee_wallet: ctx.fee_wallet,
                protocol_fee_bps: Bps::spec_new(params.protocol_fee_bps),
            },
        )
    }
}

/// What initializing the settings does and returns: on success the settings
/// are those of [`initialize_global_state`]; on failure nothing is touched
/// and the error is its error.
pub open spec fn global_state_initialized(
    before: InitializeGlobalState,
    params: InitializeGlobalStateParams,
    after: InitializeGlobalState,
    res: Result<(), ErrorCode>,
) -> bool {
    match initialize_global_state(before, params) {
        Ok(global_state) => after == (InitializeGlobalState { global_state, ..before }) && res
            == Ok::<(), ErrorCode>(()),
        Err(e) => after == before && res == Err::<(), ErrorCode>(e),
    }
}

impl InitializeGlobalState {
    /// Whether the accounts show the signer to be the upgrade authority of
    /// the escrow program: the program data account is the program's, and
    /// names the signer.
    pub open spec fn check_accounts(&self) -> Result<(), ErrorCode> {
        if self.escrow_programdata_address != Some(self.program_data.key) {
            Err(ErrorCode::InvalidProgramData)
        } else if self.program_data.upgrade_authority_address != Some(self.authority) {
            Err(ErrorCode::InvalidProgramUpgradeAuthority)
        } else {
            Ok(())
        }
    }

    /// Checks that the accounts show the signer to be the upgrade authority
    /// of the escrow program.
    pub fn validate(&self) -> (res: Result<(), ErrorCode>)
        ensures
            res == self.check_accounts(),
    {
        match self.escrow_programdata_address {
            Some(address) => {
                if address != self.program_data.key {
                    return Err(ErrorCode::InvalidProgramData);
                }
            },
            None => {
                return Err(ErrorCode::InvalidProgramData);
            },
        }
        match self.program_data.upgrade_authority_address {
            Some(address) => {
                if address != self.authority {
                    return Err(ErrorCode::InvalidProgramUpgradeAuthority);
                }
            },
            None => {
                return Err(ErrorCode::InvalidProgramUpgradeAuthority);
            },
        }
        Ok(())
    }
}

/// Sets up the protocol-wide settings. A refused request changes nothing.
pub fn handler(ctx: &mut InitializeGlobalState, params: InitializeGlobalStateParams) -> (res:
    Result<(), ErrorCode>)
    ensures
        global_state_initialized(*old(ctx), params, *final(ctx), res),
{
    match ctx.validate() {
        Ok(()) => {},
        Err(e) => {
            return Err(e);
        },
    }
    let protocol_fee_bps = match Bps::new(params.protocol_fee_bps) {
        Some(bps) => bps,
        None => {
            return Err(ErrorCode::FeeTooHigh);
        },
    };
    ctx.global_state.protocol_fee_bps = protocol_fee_bps;
    ctx.global_state.authority = ctx.global_state_owner;
    ctx.global_state.fee_wallet = ctx.fee_wallet;

    Ok(())
}

} // verus!
