//! The operations of the feed resolver, one module each.

pub mod initialize;
pub mod resolve;

pub use crate::switchboard_resolver::instructions::initialize::Initialize;
pub use crate::switchboard_resolver::instructions::resolve::Resolve;
