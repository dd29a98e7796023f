//! The operations of the floor-price resolver, one module each.

pub mod acknowledge_nft_floor;
pub mod initialize_nft_floor;
pub mod resolve_nft_floor;

pub use crate::hyperspace_resolver::instructions::acknowledge_nft_floor::AcknowledgeNftFloor;
pub use crate::hyperspace_resolver::instructions::initialize_nft_floor::{
    InitializeNftFloor, InitializeNftFloorParams,
};
pub use crate::hyperspace_resolver::instructions::resolve_nft_floor::{
    ResolveNftFloor, ResolveNftFloorParams,
};
