//! The ways in which an escrow operation is refused.

use vstd::prelude::*;

verus! {

/// The reason why an operation was refused. An operation that fails leaves
/// every record as it found it.
#[derive(Debug, Clone, Copy, PartialEq, Eq, Structural)]
pub enum ErrorCode {
    /// Market resource is invalid.
    InvalidMarketResource,
    /// Close timestamp must be greater than the present time.
    InvalidCloseTimestamp,
    /// Expiry timestamp must be greater than the close timestamp.
    InvalidExpiryTimestamp,
    /// Missing bump seed.
    MissingBumpSeed,
    /// This market is already finalized.
    AlreadyFinalized,
    /// This market is closed for trading.
    MarketClosed,
    /// Attempted to add more than the allowed amount.
    OverAllowedAmount,
    /// Token account does not match the market yes token account.
    IncorrectYesEscrow,
    /// Token account does not match the market no token account.
    IncorrectNoEscrow,
    /// Resolver does not match the market resolver.
    IncorrectResolver,
    /// This status transition is not allowed.
    InvalidTransition,
    /// Can only withdraw from an invalid market.
    MarketNotInvalid,
    /// This market is not finalized.
    NotFinalized,
    /// The provided fee is too high.
    FeeTooHigh,
    /// The provided program data is incorrect.
    InvalidProgramData,
    /// The provided program upgrade authority is incorrect.
    InvalidProgramUpgradeAuthority,
    /// The provided global state authority is incorrect.
    IncorrectGlobalStateAuthority,
    /// The fee token account must be owned by the fee wallet.
    AccountNotOwnedByFeeWallet,
    /// The user account must not be one of the market-owned accounts.
    UserAccountCannotBeMarketAccount,
    /// The user account must be owned by the signing user.
    UserAccountIncorrectOwner,
    /// Claim instruction can only be used on Yes/No finalized markets.
    CannotClaim,
    /// Must use the associated token account of the fee wallet to collect fees.
    AssociatedTokenAccountRequired,
    /// Cannot have zero tokens to fill for a side.
    ZeroTokensToFill,
    /// Calculation failed.
    CalculationFailure,
    /// Conversion to or from u64 failed.
    ConversionFailure,
}

} // verus!
