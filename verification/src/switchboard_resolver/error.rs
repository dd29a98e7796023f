//! The ways in which an operation of the feed resolver fails.

use vstd::prelude::*;

use crate::switchboard_resolver::utils::FeedError;

verus! {

/// The reason why the resolver refused an operation.
#[derive(Debug, Clone, Copy, PartialEq, Eq, Structural)]
pub enum ErrorCode {
    /// Bump seed is non-canonical
    NonCanonicalBump,
    /// Resolver does not match the market resolver address
    IncorrectResolver,
    /// Creator does not match the market creator address
    IncorrectCreator,
    /// Market does not match the resolver market address
    IncorrectMarket,
    /// Cannot resolve before timestamp
    TimestampNotPassed,
    /// Aggregator has no jobs
    AggregatorNoJobs,
    /// Aggregator is not locked
    AggregatorNotLocked,
}

/// The reason why an operation of the resolver failed: the resolver
/// refused, the feed could not be read, or the escrow program refused what
/// the resolver put to it.
#[derive(Debug, Clone)]
pub enum ResolverError {
    /// The resolver refused.
    Resolver(ErrorCode),
    /// The feed could not be read.
    Feed(FeedError),
    /// The escrow program refused.
    Escrow(crate::escrow::error::ErrorCode),
}

} // verus!
