use solsplit::SplitError;

#[test]
fn every_failure_has_its_message() {
    assert_eq!(SplitError::InvalidPercentages.message(), "Percentages must sum to exactly 100");
    assert_eq!(SplitError::ZeroPercentage.message(), "Percentage cannot be zero");
    assert_eq!(SplitError::AlreadyExecuted.message(), "Split has already been executed");
    assert_eq!(SplitError::NotExecuted.message(), "Split has not been executed yet");
    assert_eq!(SplitError::UnauthorizedSender.message(), "Unauthorized sender");
    assert_eq!(SplitError::InvalidRecipient.message(), "Invalid recipient address");
    assert_eq!(SplitError::AmountTooSmall.message(), "Amount must be at least 1000 lamports");
    assert_eq!(SplitError::MathOverflow.message(), "Math operation overflow");
    assert_eq!(SplitError::InsufficientBalance.message(), "Insufficient balance");
    assert_eq!(SplitError::DuplicateRecipient.message(), "Recipients must be different addresses");
}
