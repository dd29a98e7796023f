//! The records that the feed resolver keeps.

pub mod resolver;

pub use crate::switchboard_resolver::state::resolver::Resolver;
