//! Building blocks shared by every program: basis points, integer helpers
//! and the clock.

pub mod bps;
pub mod math;
pub mod pubkey;
pub mod sys;
pub mod system;
pub mod traits;
