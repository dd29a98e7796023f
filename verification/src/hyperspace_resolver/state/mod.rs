//! The records that the floor-price resolver keeps.

pub mod nft_floor;

pub use crate::hyperspace_resolver::state::nft_floor::NftFloor;
