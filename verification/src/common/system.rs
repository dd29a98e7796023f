//! Setting up an account: what to ask of the host's system program.
//!
//! An account that the program is about to initialise may not exist yet, or
//! may already hold lamports that somebody sent to its address. The steps
//! differ; this module decides them, and the host carries them out.

use vstd::prelude::*;

use crate::common::pubkey::Pubkey;

verus! {

/// An account that is yet to be set up, at an address that the program
/// derives.
#[derive(Clone, Copy, Debug)]
pub struct NewAccount {
    /// The address of the account.
    pub key: Pubkey,
    /// The lamports that the account holds.
    pub lamports: u64,
    /// The bump seed of the address, where the host has found it.
    pub bump: Option<u8>,
}

/// A request to the system program.
#[derive(Clone, Copy, Debug)]
pub enum SystemInstruction {
    /// Create `account` with `lamports` from `payer`, `space` bytes of data
    /// and `owner` as its owner.
    CreateAccount { payer: Pubkey, account: Pubkey, lamports: u64, space: u64, owner: Pubkey },
    /// Move `lamports` from `payer` to `account`.
    Transfer { payer: Pubkey, account: Pubkey, lamports: u64 },
    /// Give `account` `space` bytes of data.
    Allocate { account: Pubkey, space: u64 },
    /// Make `owner` the owner of `account`.
    Assign { account: Pubkey, owner: Pubkey },
}

/// What an account that holds `lamports` still lacks of the
/// `required_lamports`, of which it needs one at least.
pub open spec fn spec_top_up(lamports: u64, required_lamports: u64) -> u64 {
    let needed = if required_lamports < 1 {
        1
    } else {
        required_lamports as int
    };
    if needed <= lamports {
        0
    } else {
        (needed - lamports) as u64
    }
}

/// The requests that set up `account` with `space` bytes, owned by `owner`
/// and holding the `required_lamports`.
///
/// An account without lamports is created in one step. One that holds some
/// already is topped up where it lacks any, then given its space and its
/// owner.
pub open spec fn spec_init_account(
    payer: Pubkey,
    account: Pubkey,
    lamports: u64,
    required_lamports: u64,
    space: u64,
    owner: Pubkey,
) -> Seq<SystemInstruction> {
    let top_up = spec_top_up(lamports, required_lamports);
    let settle = seq![
        SystemInstruction::Allocate { account, space },
        SystemInstruction::Assign { account, owner },
    ];
    if lamports == 0 {
        seq![
            SystemInstruction::CreateAccount {
                payer,
                account,
                lamports: required_lamports,
                space,
                owner,
            },
        ]
    } else if top_up > 0 {
        seq![SystemInstruction::Transfer { payer, account, lamports: top_up }] + settle
    } else {
        settle
    }
}

/// Decides how to set up `account`, which holds `lamports` now, with `space`
/// bytes, owned by `owner` and holding the `required_lamports`.
pub fn init_account(
    payer: &Pubkey,
    account: &Pubkey,
    lamports: u64,
    required_lamports: u64,
    space: u64,
    owner: &Pubkey,
) -> (steps: Vec<SystemInstruction>)
    ensures
        steps@ == spec_init_account(*payer, *account, lamports, required_lamports, space, *owner),
{
    let mut steps: Vec<SystemInstruction> = Vec::new();
    if lamports == 0 {
        // Create a new account.
        steps.push(
            SystemInstruction::CreateAccount {
                payer: *payer,
                account: *account,
                lamports: required_lamports,
                space,
                owner: *owner,
            },
        );
    } else {
        let needed: u64 = if required_lamports < 1 {
            1
        } else {
            required_lamports
        };
        let top_up: u64 = needed.saturating_sub(lamports);
        if top_up > 0 {
            // Top up lamports.
            steps.push(
                SystemInstruction::Transfer { payer: *payer, account: *account, lamports: top_up },
            );
        }
        // Allocate space for the account.
        steps.push(SystemInstruction::Allocate { account: *account, space });
        // Assign the owner of the account.
        steps.push(SystemInstruction::Assign { account: *account, owner: *owner });
    }
    assert(steps@ =~= spec_init_account(
        *payer,
        *account,
        lamports,
        required_lamports,
        space,
        *owner,
    ));
    steps
}

/// An account that was topped up holds what is required, and one lamport at
/// the least; one that held enough is sent nothing.
pub proof fn lemma_top_up_suffices(lamports: u64, required_lamports: u64)
    ensures
        lamports + spec_top_up(lamports, required_lamports) >= required_lamports,
        lamports + spec_top_up(lamports, required_lamports) >= 1,
        lamports >= required_lamports && lamports >= 1 ==> spec_top_up(lamports, required_lamports)
            == 0,
        spec_top_up(lamports, required_lamports) > 0 ==> lamports + spec_top_up(
            lamports,
            required_lamports,
        ) == (if required_lamports < 1 {
            1
        } else {
            required_lamports as int
        }),
{
}

} // verus!
