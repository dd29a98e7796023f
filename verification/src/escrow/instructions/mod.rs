//! The operations of the escrow program, one module each.

pub mod claim;
pub mod deposit;
pub mod initialize_global_state;
pub mod initialize_market;
pub mod initialize_user_position;
pub mod resolver_acknowledge;
pub mod set_global_state;
pub mod update_outcome;
pub mod update_state;
pub mod withdraw;

pub use crate::escrow::instructions::claim::Claim;
pub use crate::escrow::instructions::deposit::{Deposit, DepositParams};
pub use crate::escrow::instructions::initialize_global_state::{
    InitializeGlobalState, InitializeGlobalStateParams,
};
pub use crate::escrow::instructions::initialize_market::{InitializeMarket, InitializeMarketParams};
pub use crate::escrow::instructions::initialize_user_position::InitializeUserPosition;
pub use crate::escrow::instructions::resolver_acknowledge::ResolverAcknowledge;
pub use crate::escrow::instructions::set_global_state::{SetGlobalState, SetGlobalStateParams};
pub use crate::escrow::instructions::update_outcome::{UpdateOutcome, UpdateOutcomeParams};
pub use crate::escrow::instructions::update_state::{UpdateState, UpdateStateParams};
pub use crate::escrow::instructions::withdraw::Withdraw;
