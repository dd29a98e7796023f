//! The ways in which an operation of the floor-price resolver is refused.

use vstd::prelude::*;

verus! {

/// The reason why the resolver refused an operation.
#[derive(Debug, Clone, Copy, PartialEq, Eq, Structural)]
pub enum ErrorCode {
    /// Missing bump seed.
    MissingBumpSeed,
    /// Resolver does not match the market resolver address
    IncorrectResolver,
    /// Creator does not match the market creator address
    IncorrectCreator,
    /// Authority does not match the resolver authority address
    IncorrectAuthority,
    /// Market does not match the resolver market address
    IncorrectMarket,
    /// Cannot create resolver for timestamp that has already passed
    TimestampPassed,
    /// Cannot resolve before timestamp
    TimestampNotPassed,
    /// Authority has already acknowledged the resolver
    AlreadyAcknowledged,
}

/// The reason why resolving a market failed: the resolver refused, or the
/// escrow program refused the outcome that the resolver put to it.
#[derive(Debug, Clone, Copy, PartialEq, Eq, Structural)]
pub enum ResolverError {
    /// The resolver refused.
    Resolver(ErrorCode),
    /// The escrow program refused.
    Escrow(crate::escrow::error::ErrorCode),
}

} // verus!
