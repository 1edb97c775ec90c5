use solsplit::{
    cancel_split, close_split, CancelSplit, CloseSplit, Pubkey, SplitCancelled, SplitClosed,
    SplitConfig, SplitError,
};

fn key(byte: u8) -> Pubkey {
    Pubkey::new_from_array([byte; 32])
}

fn record(executed: bool) -> SplitConfig {
    SplitConfig {
        sender: key(1),
        recipient1: key(2),
        recipient2: key(3),
        recipient1_percentage: 30,
        recipient2_percentage: 70,
        executed,
        nonce: 7,
        created_at: 100,
        executed_at: if executed { 150 } else { 0 },
        bump: 254,
    }
}

#[test]
fn sender_cancels_a_pending_split() {
    let ctx = CancelSplit { split_config: record(false), sender: key(1) };
    assert_eq!(
        cancel_split(&ctx, 300),
        Ok(SplitCancelled { sender: key(1), nonce: 7, timestamp: 300 })
    );
}

#[test]
fn an_executed_split_cannot_be_cancelled() {
    let ctx = CancelSplit { split_config: record(true), sender: key(1) };
    assert_eq!(cancel_split(&ctx, 300), Err(SplitError::AlreadyExecuted));
    let stranger = CancelSplit { split_config: record(true), sender: key(9) };
    assert_eq!(cancel_split(&stranger, 300), Err(SplitError::AlreadyExecuted));
}

#[test]
fn a_stranger_cannot_cancel() {
    let ctx = CancelSplit { split_config: record(false), sender: key(9) };
    assert_eq!(cancel_split(&ctx, 300), Err(SplitError::UnauthorizedSender));
}

#[test]
fn sender_closes_an_executed_split() {
    let ctx = CloseSplit { split_config: record(true), sender: key(1) };
    assert_eq!(
        close_split(&ctx, 400),
        Ok(SplitClosed { sender: key(1), nonce: 7, timestamp: 400 })
    );
}

#[test]
fn a_pending_split_cannot_be_closed() {
    let ctx = CloseSplit { split_config: record(false), sender: key(1) };
    assert_eq!(close_split(&ctx, 400), Err(SplitError::NotExecuted));
    let stranger = CloseSplit { split_config: record(false), sender: key(9) };
    assert_eq!(close_split(&stranger, 400), Err(SplitError::NotExecuted));
}

#[test]
fn a_stranger_cannot_close() {
    let ctx = CloseSplit { split_config: record(true), sender: key(9) };
    assert_eq!(close_split(&ctx, 400), Err(SplitError::UnauthorizedSender));
}
