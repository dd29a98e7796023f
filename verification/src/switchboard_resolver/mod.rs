//! A resolver that settles a market by a Switchboard feed: yes if the feed
//! reads 1 once the market has expired, no if it reads 2, void for any
//! other reading.

pub mod error;
pub mod instructions;
pub mod program;
pub mod state;
pub mod utils;

pub use crate::switchboard_resolver::error::ErrorCode;
