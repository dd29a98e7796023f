//! Reading a Switchboard feed.
//!
//! The host loads the feed account and asks it for its latest result; what
//! came of both is handed in here as plain values.

use vstd::prelude::*;

verus! {

/// A decimal number as a feed reports it: `mantissa` times ten to the power
/// of minus `scale`.
#[derive(Clone, Copy, Debug, PartialEq, Eq, Structural)]
pub struct SwitchboardDecimal {
    /// The significant digits of the number.
    pub mantissa: i128,
    /// The number of decimal places to move to the left.
    pub scale: u32,
}

/// An error of the host program, as far as it is read here.
#[derive(Clone, Copy, Debug, PartialEq, Eq, Structural)]
pub enum ProgramError {
    /// An error that a program has defined, by its number.
    Custom(u32),
    /// One of the host's own errors, by the number that the host gives it.
    Other(u64),
}

/// An error with a name, a number and a message.
#[derive(Clone, Debug)]
pub struct AnchorError {
    /// The name of the error.
    pub error_name: String,
    /// The number of the error.
    pub error_code_number: u32,
    /// The message of the error.
    pub error_msg: String,
}

/// The reason why a feed could not be read.
#[derive(Clone, Debug)]
pub enum FeedError {
    /// An error with a name, a number and a message.
    AnchorError(AnchorError),
    /// An error of the host program.
    ProgramError(ProgramError),
}

/// What the resolver reads of a feed account that was loaded: its latest
/// confirmed result, or the reason why it has none to give.
#[derive(Debug)]
pub struct AggregatorAccountData {
    /// The latest confirmed result.
    pub result: Result<SwitchboardDecimal, FeedError>,
}

impl AggregatorAccountData {
    /// The latest confirmed result of the feed.
    pub fn get_result(self) -> (res: Result<SwitchboardDecimal, FeedError>)
        ensures
            res == self.result,
    {
        self.result
    }
}

/// The number under which the Switchboard library reports an account whose
/// tag is not that of a feed.
pub const SWITCHBOARD_DISCRIMINATOR_MISMATCH: u32 = 6004;

/// The number under which the host framework reports an account whose tag
/// is not the expected one.
pub const ACCOUNT_DISCRIMINATOR_MISMATCH: u32 = 3002;

/// Calls `<u32 as From<switchboard_v2::SwitchboardError>>::from` on the
/// error `AccountDiscriminatorMismatch`.
///
/// Not proved: that the call returns 6004. The conversion adds the
/// framework's offset for the errors of programs, 6000, to the place of the
/// variant in its enum, where it stands fifth, counted from zero as 4.
#[verifier::external_body]
fn switchboard_mismatch_code() -> (code: u32)
    ensures
        code == SWITCHBOARD_DISCRIMINATOR_MISMATCH,
{
    u32::from(switchboard_v2::SwitchboardError::AccountDiscriminatorMismatch)
}

/// Calls `<u32 as From<anchor_lang::error::ErrorCode>>::from` on the error
/// `AccountDiscriminatorMismatch`.
///
/// Not proved: that the call returns 3002. The enum has no offset, and the
/// variant is the second after the one that the enum sets to 3000.
#[verifier::external_body]
fn framework_mismatch_code() -> (code: u32)
    ensures
        code == ACCOUNT_DISCRIMINATOR_MISMATCH,
{
    u32::from(anchor_lang::error::ErrorCode::AccountDiscriminatorMismatch)
}

/// Calls `anchor_lang::error::ErrorCode::name` on the error
/// `AccountDiscriminatorMismatch`.
///
/// Not proved: that the call returns the name of the variant as it is
/// written.
#[verifier::external_body]
fn framework_mismatch_name() -> (name: String)
    ensures
        name@ == "AccountDiscriminatorMismatch"@,
{
    anchor_lang::error::ErrorCode::AccountDiscriminatorMismatch.name()
}

/// Calls `to_string` on the error
/// `anchor_lang::error::ErrorCode::AccountDiscriminatorMismatch`, which
/// writes it out as its `Display` does.
///
/// Not proved: that the call returns the message that the variant is
/// declared with.
#[verifier::external_body]
fn framework_mismatch_msg() -> (msg: String)
    ensures
        msg@ == "8 byte discriminator did not match what was expected"@,
{
    anchor_lang::error::ErrorCode::AccountDiscriminatorMismatch.to_string()
}

/// Whether `mapped` is `err` as the resolver reports it: the Switchboard
/// library's error for a wrong account tag becomes the framework's error
/// for the same, by number and, where the error has them, by name and
/// message. Every other error stays as it is.
pub open spec fn is_reported_as(err: FeedError, mapped: FeedError) -> bool {
    match err {
        FeedError::AnchorError(e) => {
            if e.error_code_number == SWITCHBOARD_DISCRIMINATOR_MISMATCH {
                &&& mapped matches FeedError::AnchorError(m)
                &&& m.error_code_number == ACCOUNT_DISCRIMINATOR_MISMATCH
                &&& m.error_name@ == "AccountDiscriminatorMismatch"@
                &&& m.error_msg@ == "8 byte discriminator did not match what was expected"@
            } else {
                mapped == err
            }
        },
        FeedError::ProgramError(e) => {
            if e == ProgramError::Custom(SWITCHBOARD_DISCRIMINATOR_MISMATCH) {
                mapped == FeedError::ProgramError(
                    ProgramError::Custom(ACCOUNT_DISCRIMINATOR_MISMATCH),
                )
            } else {
                mapped == err
            }
        },
    }
}

/// Map the error returned by Switchboard to the appropriate framework one.
pub fn map_feed_error(err: FeedError) -> (mapped: FeedError)
    ensures
        is_reported_as(err, mapped),
{
    let mismatch: u32 = switchboard_mismatch_code();
    match err {
        FeedError::AnchorError(anchor_err) => {
            if anchor_err.error_code_number == mismatch {
                FeedError::AnchorError(
                    AnchorError {
                        error_name: framework_mismatch_name(),
                        error_code_number: framework_mismatch_code(),
                        error_msg: framework_mismatch_msg(),
                    },
                )
            } else {
                FeedError::AnchorError(anchor_err)
            }
        },
        FeedError::ProgramError(program_error) => {
            let is_mismatch = match program_error {
                ProgramError::Custom(code) => code == mismatch,
                ProgramError::Other(_) => false,
            };
            if is_mismatch {
                FeedError::ProgramError(ProgramError::Custom(framework_mismatch_code()))
            } else {
                FeedError::ProgramError(program_error)
            }
        },
    }
}

/// Takes what came of loading the feed account: the feed where it was
/// loaded, and else the error as the resolver reports it.
pub fn load_aggregator_account(loaded: Result<AggregatorAccountData, FeedError>) -> (res: Result<
    AggregatorAccountData,
    FeedError,
>)
    ensures
        loaded is Ok ==> res == loaded,
        loaded is Err ==> res is Err && is_reported_as(loaded->Err_0, res->Err_0),
{
    match loaded {
        Ok(feed) => Ok(feed),
        Err(err) => Err(map_feed_error(err)),
    }
}

} // verus!
