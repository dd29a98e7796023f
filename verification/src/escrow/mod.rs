//! The escrow program: markets, positions and their settlement.

pub mod error;
pub mod instructions;
pub mod ledger;
pub mod program;
pub mod state;
pub mod utils;

pub use crate::escrow::error::ErrorCode;
