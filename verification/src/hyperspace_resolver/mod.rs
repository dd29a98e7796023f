//! A resolver that settles a market by the floor price of an NFT
//! collection: yes if the floor is at or above a set price once the market
//! has expired, no if it is below.

pub mod error;
pub mod instructions;
pub mod program;
pub mod state;
pub mod utils;

pub use crate::hyperspace_resolver::error::ErrorCode;
