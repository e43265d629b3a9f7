//! The reasons for which a request is refused.
use vstd::prelude::*;

verus! {

/// Why a request was rejected. A rejection is final for that request and leaves every
/// record as it was.
#[derive(Clone, Copy, Debug, PartialEq, Eq, Structural)]
pub enum ErrorCode {
    /// The release interval has not yet elapsed since the last release.
    ReleaseTooSoon,
    /// The source balance is smaller than the amount to transfer.
    InsufficientFunds,
    /// The requested release exceeds the supply that is still unreleased.
    InsufficientSupply,
    /// The caller is not the authority of the vesting record.
    Unauthorized,
    /// The bounded number of scheduled releases has been used up.
    NoReleasesRemaining,
    /// The amount exceeds the configured cap for a single transfer.
    WhaleTransferRestricted,
    /// The initial release is larger than the total supply.
    InvalidInitialRelease,
    /// The commission rate lies outside zero to one, in basis points.
    InvalidCommissionRate,
    /// A credited balance would no longer fit in 64 bits.
    ArithmeticOverflow,
}

impl ErrorCode {
    /// The text that explains this rejection.
    pub open spec fn message_text(self) -> Seq<char> {
        match self {
            ErrorCode::ReleaseTooSoon => "Interval not yet reached."@,
            ErrorCode::InsufficientFunds => "Insufficient balance."@,
            ErrorCode::InsufficientSupply => "Not enough tokens available."@,
            ErrorCode::Unauthorized => "Caller is not the authority."@,
            ErrorCode::NoReleasesRemaining => "No scheduled releases remain."@,
            ErrorCode::WhaleTransferRestricted => "Amount exceeds the transfer cap."@,
            ErrorCode::InvalidInitialRelease => "Initial release exceeds the total supply."@,
            ErrorCode::InvalidCommissionRate => "Commission rate is out of range."@,
            ErrorCode::ArithmeticOverflow => "Balance would overflow."@,
        }
    }

    /// A short explanation of this rejection.
    pub fn message(&self) -> (text: &'static str)
        ensures
            text@ == self.message_text(),
    {
        match self {
            ErrorCode::ReleaseTooSoon => "Interval not yet reached.",
            ErrorCode::InsufficientFunds => "Insufficient balance.",
            ErrorCode::InsufficientSupply => "Not enough tokens available.",
            ErrorCode::Unauthorized => "Caller is not the authority.",
            ErrorCode::NoReleasesRemaining => "No scheduled releases remain.",
            ErrorCode::WhaleTransferRestricted => "Amount exceeds the transfer cap.",
            ErrorCode::InvalidInitialRelease => "Initial release exceeds the total supply.",
            ErrorCode::InvalidCommissionRate => "Commission rate is out of range.",
            ErrorCode::ArithmeticOverflow => "Balance would overflow.",
        }
    }
}

} // verus!
