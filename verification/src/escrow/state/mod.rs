//! The records that the escrow program keeps.

pub mod bps;
pub mod global_state;
pub mod market;
pub mod outcome;
pub mod uri;
pub mod user_position;

pub use crate::escrow::state::bps::Bps;
pub use crate::escrow::state::global_state::GlobalState;
pub use crate::escrow::state::market::{Market, MAX_DELAY};
pub use crate::escrow::state::outcome::Outcome;
pub use crate::escrow::state::uri::UriResource;
pub use crate::escrow::state::user_position::UserPosition;
