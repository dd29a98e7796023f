//! Settlement engine for binary-outcome prediction markets.
//!
//! Users deposit on the "yes" or the "no" side of a market, a resolver sets
//! the outcome, and once the outcome is final the winners claim their share
//! of the losing pool, less the protocol fee. A market that was never fully
//! funded, or never resolved, is void: everyone withdraws what they put in.
//!
//! Every operation is a function from the records it touches and the current
//! time to the new records and the token transfers to carry out. Nothing
//! here reads a clock or moves a token by itself.
//!
//! - [`common`] holds what every program shares: basis points and the fee
//!   they charge, integer helpers, addresses, the clock, and the steps that
//!   set up an account.
//! - [`escrow`] holds the market with the rules by which its outcome becomes
//!   final, the positions, and the operations on both: deposit, outcome
//!   update, claim and withdrawal, with the laws that they keep.
//! - [`hyperspace_resolver`] and [`switchboard_resolver`] are two resolvers:
//!   they decide an outcome, by a floor price and by a feed, and put it to
//!   the escrow program.

pub mod common;
pub mod escrow;
pub mod hyperspace_resolver;
pub mod switchboard_resolver;
