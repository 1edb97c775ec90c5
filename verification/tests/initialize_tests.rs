use solsplit::{initialize_split, InitializeSplit, Pubkey, SplitConfig, SplitError, SplitInitialized};

fn key(byte: u8) -> Pubkey {
    Pubkey::new_from_array([byte; 32])
}

fn accounts() -> InitializeSplit {
    InitializeSplit { sender: key(1), recipient1: key(2), recipient2: key(3), bump: 254 }
}

#[test]
fn initialize_creates_a_pending_record() {
    let (record, event) = initialize_split(&accounts(), 30, 70, 7, 1_700_000_000).unwrap();
    assert_eq!(
        record,
        SplitConfig {
            sender: key(1),
            recipient1: key(2),
            recipient2: key(3),
            recipient1_percentage: 30,
            recipient2_percentage: 70,
            executed: false,
            nonce: 7,
            created_at: 1_700_000_000,
            executed_at: 0,
            bump: 254,
        }
    );
    assert_eq!(
        event,
        SplitInitialized {
            sender: key(1),
            recipient1: key(2),
            recipient2: key(3),
            recipient1_percentage: 30,
            recipient2_percentage: 70,
            nonce: 7,
            timestamp: 1_700_000_000,
        }
    );
}

#[test]
fn every_valid_pair_of_percentages_is_accepted() {
    for first in 1u8..=99 {
        let (record, _) = initialize_split(&accounts(), first, 100 - first, 0, 0).unwrap();
        assert_eq!(record.recipient1_percentage, first);
        assert_eq!(record.recipient2_percentage, 100 - first);
        assert!(!record.executed);
    }
}

#[test]
fn every_other_sum_is_invalid() {
    for first in 0u8..=255 {
        for second in 0u8..=255 {
            if first as u16 + second as u16 != 100 {
                assert_eq!(
                    initialize_split(&accounts(), first, second, 0, 0),
                    Err(SplitError::InvalidPercentages)
                );
            }
        }
    }
}

#[test]
fn a_sum_beyond_a_byte_is_invalid() {
    assert_eq!(
        initialize_split(&accounts(), 200, 156, 0, 0),
        Err(SplitError::InvalidPercentages)
    );
    assert_eq!(
        initialize_split(&accounts(), 255, 255, 0, 0),
        Err(SplitError::InvalidPercentages)
    );
}

#[test]
fn a_zero_percentage_is_refused() {
    assert_eq!(initialize_split(&accounts(), 0, 100, 0, 0), Err(SplitError::ZeroPercentage));
    assert_eq!(initialize_split(&accounts(), 100, 0, 0, 0), Err(SplitError::ZeroPercentage));
}

#[test]
fn a_zero_percentage_with_a_wrong_sum_is_invalid() {
    assert_eq!(initialize_split(&accounts(), 0, 50, 0, 0), Err(SplitError::InvalidPercentages));
    assert_eq!(initialize_split(&accounts(), 0, 0, 0, 0), Err(SplitError::InvalidPercentages));
}

#[test]
fn duplicate_recipient_is_refused() {
    let ctx = InitializeSplit { sender: key(1), recipient1: key(2), recipient2: key(2), bump: 0 };
    for first in 1u8..=99 {
        assert_eq!(
            initialize_split(&ctx, first, 100 - first, 0, 0),
            Err(SplitError::DuplicateRecipient)
        );
    }
}

#[test]
fn bad_percentages_are_reported_before_a_duplicate_recipient() {
    let ctx = InitializeSplit { sender: key(1), recipient1: key(2), recipient2: key(2), bump: 0 };
    assert_eq!(initialize_split(&ctx, 60, 60, 0, 0), Err(SplitError::InvalidPercentages));
    assert_eq!(initialize_split(&ctx, 100, 0, 0, 0), Err(SplitError::ZeroPercentage));
}

#[test]
fn system_program_cannot_be_a_recipient() {
    let system = Pubkey::system_program();
    let first = InitializeSplit { sender: key(1), recipient1: system, recipient2: key(3), bump: 0 };
    let second = InitializeSplit { sender: key(1), recipient1: key(2), recipient2: system, bump: 0 };
    assert_eq!(initialize_split(&first, 50, 50, 0, 0), Err(SplitError::InvalidRecipient));
    assert_eq!(initialize_split(&second, 50, 50, 0, 0), Err(SplitError::InvalidRecipient));
}

#[test]
fn both_recipients_the_system_program_is_a_duplicate() {
    let system = Pubkey::system_program();
    let ctx = InitializeSplit { sender: key(1), recipient1: system, recipient2: system, bump: 0 };
    assert_eq!(initialize_split(&ctx, 50, 50, 0, 0), Err(SplitError::DuplicateRecipient));
}

#[test]
fn the_sender_may_be_a_recipient() {
    let ctx = InitializeSplit { sender: key(1), recipient1: key(1), recipient2: key(3), bump: 0 };
    assert!(initialize_split(&ctx, 50, 50, 0, 0).is_ok());
}

#[test]
fn identities_differ_by_any_byte() {
    let mut bytes = [2u8; 32];
    bytes[31] = 3;
    let ctx = InitializeSplit {
        sender: key(1),
        recipient1: key(2),
        recipient2: Pubkey::new_from_array(bytes),
        bump: 0,
    };
    assert!(initialize_split(&ctx, 50, 50, 0, 0).is_ok());
    assert_ne!(key(2), Pubkey::new_from_array(bytes));
    assert_eq!(key(2), Pubkey::new_from_array([2u8; 32]));
}
