//! The failures a split operation can report.

use vstd::prelude::*;

verus! {

/// Why a split operation was refused. Every failure is detected before
/// anything changes, so a refused call leaves the record as it was.
#[derive(Clone, Copy, Debug, PartialEq, Eq, Structural)]
pub enum SplitError {
    /// The two percentages do not sum to exactly 100.
    InvalidPercentages,
    /// One of the two percentages is zero.
    ZeroPercentage,
    /// The split has already been executed.
    AlreadyExecuted,
    /// The split has not been executed yet.
    NotExecuted,
    /// The caller is not the sender who committed the split.
    UnauthorizedSender,
    /// A recipient is the system program, or is not the one on record.
    InvalidRecipient,
    /// The amount is below the minimum split amount.
    AmountTooSmall,
    /// An amount does not fit the integers it is computed in.
    MathOverflow,
    /// The sender holds less than the amount to split.
    InsufficientBalance,
    /// The two recipients are the same identity.
    DuplicateRecipient,
}

impl SplitError {
    /// The text of the message that goes with each failure.
    pub open spec fn message_text(&self) -> Seq<char> {
        match self {
            SplitError::InvalidPercentages => "Percentages must sum to exactly 100"@,
            SplitError::ZeroPercentage => "Percentage cannot be zero"@,
            SplitError::AlreadyExecuted => "Split has already been executed"@,
            SplitError::NotExecuted => "Split has not been executed yet"@,
            SplitError::UnauthorizedSender => "Unauthorized sender"@,
            SplitError::InvalidRecipient => "Invalid recipient address"@,
            SplitError::AmountTooSmall => "Amount must be at least 1000 lamports"@,
            SplitError::MathOverflow => "Math operation overflow"@,
            SplitError::InsufficientBalance => "Insufficient balance"@,
            SplitError::DuplicateRecipient => "Recipients must be different addresses"@,
        }
    }

    /// A message for people to read.
    pub fn message(&self) -> (r: &'static str)
        ensures
            r@ == self.message_text(),
    {
        match self {
            SplitError::InvalidPercentages => "Percentages must sum to exactly 100",
            SplitError::ZeroPercentage => "Percentage cannot be zero",
            SplitError::AlreadyExecuted => "Split has already been executed",
            SplitError::NotExecuted => "Split has not been executed yet",
            SplitError::UnauthorizedSender => "Unauthorized sender",
            SplitError::InvalidRecipient => "Invalid recipient address",
            SplitError::AmountTooSmall => "Amount must be at least 1000 lamports",
            SplitError::MathOverflow => "Math operation overflow",
            SplitError::InsufficientBalance => "Insufficient balance",
            SplitError::DuplicateRecipient => "Recipients must be different addresses",
        }
    }
}

} // verus!
