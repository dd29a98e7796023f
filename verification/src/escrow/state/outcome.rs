//! The outcome of a market.

use vstd::prelude::*;

verus! {

/// A possible market outcome.
#[derive(Clone, Copy, Debug, Eq, PartialEq, Structural)]
pub enum Outcome {
    /// The market question has not yet resolved.
    Open,
    /// A positive outcome to the market question.
    Yes,
    /// A negative outcome to the market question.
    No,
    /// The market is no longer valid (e.g. the event was canceled).
    Invalid,
}

impl Outcome {
    /// The number of bytes that a stored outcome takes.
    pub const LEN: usize = 1;

    /// Whether the outcome names a winning side.
    pub open spec fn is_binary(self) -> bool {
        self == Outcome::Yes || self == Outcome::No
    }
}

impl Default for Outcome {
    /// A market starts open.
    #[inline]
    fn default() -> (res: Outcome)
        ensures
            res == Outcome::Open,
    {
        Outcome::Open
    }
}

} // verus!
