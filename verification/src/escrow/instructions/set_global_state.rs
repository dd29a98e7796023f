//! Changing the protocol-wide settings.

use vstd::prelude::*;

use crate::common::pubkey::Pubkey;
use crate::escrow::error::ErrorCode;
use crate::escrow::state::bps::Bps;
use crate::escrow::state::global_state::GlobalState;

verus! {

/// Parameters for changing the global state.
#[derive(Clone, Copy, Debug)]
pub struct SetGlobalStateParams {
    /// The new owner of the global state account.
    pub new_authority: Pubkey,
    /// The new protocol fee (in basis points).
    pub new_protocol_fee_bps: u16,
    /// The new wallet which will own the protocol fee.
    pub new_fee_wallet: Pubkey,
}

/// Changes the global state. Only its authority can.
#[derive(Clone, Copy, Debug)]
pub struct SetGlobalState {
    /// The global state account.
    pub global_state: GlobalState,
    /// The signer, who must be the authority of the global state.
    pub authority: Pubkey,
}

/// The settings after a change that `authority` asks for, or the reason why
/// it is refused: a signer who is not the current authority, or a fee of
/// more than 10000 basis points. Authority, fee wallet and fee change
/// together or not at all.
pub open spec fn set_global_state(
    global_state: GlobalState,
    authority: Pubkey,
    params: SetGlobalStateParams,
) -> Result<GlobalState, ErrorCode> {
    if authority != global_state.authority {
        Err(ErrorCode::IncorrectGlobalStateAuthority)
    } else if params.new_protocol_fee_bps > Bps::MAX {
        Err(ErrorCode::FeeTooHigh)
    } else {
        Ok(
            GlobalState {
                authority: params.new_authority,
                fee_wallet: params.new_fee_wallet,
                protocol_fee_bps: Bps::spec_new(params.new_protocol_fee_bps),
            },
        )
    }
}

/// What changing the settings does and returns: on success the settings are
/// those of [`set_global_state`]; on failure they are untouched and the
/// error is its error.
pub open spec fn global_state_set(
    before: SetGlobalState,
    params: SetGlobalStateParams,
    after: SetGlobalState,
    res: Result<(), ErrorCode>,
) -> bool {
    match set_global_state(before.global_state, before.authority, params) {
        Ok(global_state) => after == (SetGlobalState { global_state, ..before }) && res == Ok::<
            (),
            ErrorCode,
        >(()),
        Err(e) => after == before && res == Err::<(), ErrorCode>(e),
    }
}

impl SetGlobalState {
    /// Checks that the signer is the authority of the global state.
    pub fn validate(&self) -> (res: Result<(), ErrorCode>)
        ensures
            self.authority == self.global_state.authority ==> res == Ok::<(), ErrorCode>(()),
            self.authority != self.global_state.authority ==> res == Err::<(), ErrorCode>(
                ErrorCode::IncorrectGlobalStateAuthority,
            ),
    {
        if self.authority != self.global_state.authority {
            return Err(ErrorCode::IncorrectGlobalStateAuthority);
        }
        Ok(())
    }
}

/// Changes the protocol-wide settings. A refused request changes nothing.
pub fn handler(ctx: &mut SetGlobalState, params: SetGlobalStateParams) -> (res: Result<
    (),
    ErrorCode,
>)
    ensures
        global_state_set(*old(ctx), params, *final(ctx), res),
{
    let SetGlobalStateParams { new_authority, new_protocol_fee_bps, new_fee_wallet } = params;

    match ctx.validate() {
        Ok(()) => {},
        Err(e) => {
            return Err(e);
        },
    }
    let protocol_fee_bps = match Bps::new(new_protocol_fee_bps) {
        Some(bps) => bps,
        None => {
            return Err(ErrorCode::FeeTooHigh);
        },
    };
    ctx.global_state.protocol_fee_bps = protocol_fee_bps;
    ctx.global_state.authority = new_authority;
    ctx.global_state.fee_wallet = new_fee_wallet;

    Ok(())
}

/// Whoever is not the authority changes nothing; and once the authority has
/// handed over, it is the former authority who changes nothing.
pub proof fn lemma_only_the_authority_sets(
    global_state: GlobalState,
    signer: Pubkey,
    params: SetGlobalStateParams,
    next: SetGlobalStateParams,
)
    ensures
        signer != global_state.authority ==> set_global_state(global_state, signer, params)
            is Err,
        set_global_state(global_state, signer, params) matches Ok(changed) ==> signer
            == global_state.authority && (params.new_authority != signer ==> set_global_state(
            changed,
            signer,
            next,
        ) is Err),
{
}

/// The fee that the settings hold is never more than 10000 basis points.
pub proof fn lemma_fee_stays_in_range(
    global_state: GlobalState,
    signer: Pubkey,
    params: SetGlobalStateParams,
)
    requires
        set_global_state(global_state, signer, params) is Ok,
    ensures
        set_global_state(global_state, signer, params)->Ok_0.protocol_fee_bps@
            == params.new_protocol_fee_bps,
        params.new_protocol_fee_bps <= 10_000,
{
    crate::escrow::state::bps::lemma_rate_view(params.new_protocol_fee_bps);
}

} // verus!
