//! The four operations on a split record.
//!
//! Each operation checks its preconditions in a fixed order and reports the
//! first one that fails. A refused operation changes nothing. The time is
//! handed in by the caller, in seconds since the epoch.

use vstd::prelude::*;
use crate::amounts::{split_amounts, split_of, MINIMUM_SPLIT_AMOUNT};
use crate::error::SplitError;
use crate::events::{SplitCancelled, SplitClosed, SplitExecuted, SplitInitialized};
use crate::pubkey::{lemma_pubkey_view_injective, Pubkey};
use crate::state::SplitConfig;

verus! {

/// The accounts of a commitment: who commits, the two recipients, and the
/// bump seed of the address that the new record will live at.
#[derive(Clone, Copy, Debug, PartialEq, Eq)]
pub struct InitializeSplit {
    /// Who commits the split.
    pub sender: Pubkey,
    /// Who is to receive the first share.
    pub recipient1: Pubkey,
    /// Who is to receive the rest.
    pub recipient2: Pubkey,
    /// The bump seed of the record's address.
    pub bump: u8,
}

/// The event that announces `record`, newly created.
pub open spec fn initialized_event(record: SplitConfig) -> SplitInitialized {
    SplitInitialized {
        sender: record.sender,
        recipient1: record.recipient1,
        recipient2: record.recipient2,
        recipient1_percentage: record.recipient1_percentage,
        recipient2_percentage: record.recipient2_percentage,
        nonce: record.nonce,
        timestamp: record.created_at,
    }
}

/// What committing a split comes to: the first precondition that fails, or
/// the new record, pending and created at time `now`, with the event that
/// announces it.
pub open spec fn initialize_outcome(
    ctx: InitializeSplit,
    recipient1_percentage: u8,
    recipient2_percentage: u8,
    nonce: u64,
    now: i64,
) -> Result<(SplitConfig, SplitInitialized), SplitError> {
    if recipient1_percentage + recipient2_percentage != 100 {
        Err(SplitError::InvalidPercentages)
    } else if recipient1_percentage == 0 || recipient2_percentage == 0 {
        Err(SplitError::ZeroPercentage)
    } else if ctx.recipient1 == ctx.recipient2 {
        Err(SplitError::DuplicateRecipient)
    } else if ctx.recipient1.is_system_program() || ctx.recipient2.is_system_program() {
        Err(SplitError::InvalidRecipient)
    } else {
        let record = SplitConfig {
            sender: ctx.sender,
            recipient1: ctx.recipient1,
            recipient2: ctx.recipient2,
            recipient1_percentage,
            recipient2_percentage,
            executed: false,
            nonce,
            created_at: now,
            executed_at: 0,
            bump: ctx.bump,
        };
        Ok((record, initialized_event(record)))
    }
}

/// Commits a split: checks the percentages and the recipients, and returns
/// the new record with the event that announces it.
pub fn initialize_split(
    ctx: &InitializeSplit,
    recipient1_percentage: u8,
    recipient2_percentage: u8,
    nonce: u64,
    now: i64,
) -> (r: Result<(SplitConfig, SplitInitialized), SplitError>)
    ensures
        r == initialize_outcome(*ctx, recipient1_percentage, recipient2_percentage, nonce, now),
        r matches Ok((record, _)) ==> record.well_formed() && record.is_pending(),
{
    let sum: u16 = recipient1_percentage as u16 + recipient2_percentage as u16;
    if sum != 100 {
        return Err(SplitError::InvalidPercentages);
    }
    if recipient1_percentage == 0 || recipient2_percentage == 0 {
        return Err(SplitError::ZeroPercentage);
    }
    if ctx.recipient1 == ctx.recipient2 {
        return Err(SplitError::DuplicateRecipient);
    }
    let system_program = Pubkey::system_program();
    proof {
        lemma_pubkey_view_injective(ctx.recipient1, system_program);
        lemma_pubkey_view_injective(ctx.recipient2, system_program);
    }
    if ctx.recipient1 == system_program {
        return Err(SplitError::InvalidRecipient);
    }
    if ctx.recipient2 == system_program {
        return Err(SplitError::InvalidRecipient);
    }
    let record = SplitConfig {
        sender: ctx.sender,
        recipient1: ctx.recipient1,
        recipient2: ctx.recipient2,
        recipient1_percentage,
        recipient2_percentage,
        executed: false,
        nonce,
        created_at: now,
        executed_at: 0,
        bump: ctx.bump,
    };
    let event = SplitInitialized {
        sender: record.sender,
        recipient1: record.recipient1,
        recipient2: record.recipient2,
        recipient1_percentage,
        recipient2_percentage,
        nonce,
        timestamp: now,
    };
    Ok((record, event))
}

/// The accounts of an execution: the record, the caller with its balance,
/// and the two accounts to pay.
#[derive(Clone, Copy, Debug, PartialEq, Eq)]
pub struct ExecuteSplit {
    /// The record to execute.
    pub split_config: SplitConfig,
    /// Who asks for the execution.
    pub sender: Pubkey,
    /// What the caller holds.
    pub sender_lamports: u64,
    /// The account offered as first recipient.
    pub recipient1: Pubkey,
    /// The account offered as second recipient.
    pub recipient2: Pubkey,
}

/// What executing `amount` on `ctx` at time `now` comes to: the first
/// precondition that fails, or the two transfers to make.
pub open spec fn execute_outcome(ctx: ExecuteSplit, amount: u64, now: i64) -> Result<
    SplitExecuted,
    SplitError,
> {
    let record = ctx.split_config;
    if record.executed {
        Err(SplitError::AlreadyExecuted)
    } else if record.sender != ctx.sender {
        Err(SplitError::UnauthorizedSender)
    } else if record.recipient1 != ctx.recipient1 || record.recipient2 != ctx.recipient2 {
        Err(SplitError::InvalidRecipient)
    } else if amount < MINIMUM_SPLIT_AMOUNT {
        Err(SplitError::AmountTooSmall)
    } else {
        match split_of(amount, record.recipient1_percentage) {
            Err(e) => Err(e),
            Ok((amount1, amount2)) => if ctx.sender_lamports < amount {
                Err(SplitError::InsufficientBalance)
            } else {
                Ok(
                    SplitExecuted {
                        sender: record.sender,
                        recipient1: record.recipient1,
                        recipient2: record.recipient2,
                        amount1,
                        amount2,
                        total_amount: amount,
                        timestamp: now,
                    },
                )
            },
        }
    }
}

/// Executes the split: works out the two shares of `amount` and marks the
/// record executed. The event returned names the two transfers that the
/// caller must then make from the sender, both or neither.
pub fn execute_split(ctx: &mut ExecuteSplit, amount: u64, now: i64) -> (r: Result<
    SplitExecuted,
    SplitError,
>)
    ensures
        r == execute_outcome(*old(ctx), amount, now),
        r is Ok ==> *final(ctx) == (ExecuteSplit {
            split_config: old(ctx).split_config.after_execution(now),
            ..*old(ctx)
        }),
        r is Err ==> *final(ctx) == *old(ctx),
        r matches Ok(event) ==> event.amount1 + event.amount2 == amount,
        old(ctx).split_config.well_formed() ==> final(ctx).split_config.well_formed(),
{
    if ctx.split_config.executed {
        return Err(SplitError::AlreadyExecuted);
    }
    if ctx.split_config.sender != ctx.sender {
        return Err(SplitError::UnauthorizedSender);
    }
    if ctx.split_config.recipient1 != ctx.recipient1 {
        return Err(SplitError::InvalidRecipient);
    }
    if ctx.split_config.recipient2 != ctx.recipient2 {
        return Err(SplitError::InvalidRecipient);
    }
    if amount < MINIMUM_SPLIT_AMOUNT {
        return Err(SplitError::AmountTooSmall);
    }
    let (amount1, amount2) = match split_amounts(amount, ctx.split_config.recipient1_percentage) {
        Ok(shares) => shares,
        Err(e) => {
            return Err(e);
        },
    };
    if ctx.sender_lamports < amount {
        return Err(SplitError::InsufficientBalance);
    }
    ctx.split_config.executed = true;
    ctx.split_config.executed_at = now;
    Ok(
        SplitExecuted {
            sender: ctx.split_config.sender,
            recipient1: ctx.split_config.recipient1,
            recipient2: ctx.split_config.recipient2,
            amount1,
            amount2,
            total_amount: amount,
            timestamp: now,
        },
    )
}

/// The accounts of a cancellation: the record and the caller.
#[derive(Clone, Copy, Debug, PartialEq, Eq)]
pub struct CancelSplit {
    /// The record to withdraw.
    pub split_config: SplitConfig,
    /// Who asks for the cancellation.
    pub sender: Pubkey,
}

/// What cancelling comes to: the first precondition that fails, or the
/// event that announces the cancellation.
pub open spec fn cancel_outcome(ctx: CancelSplit, now: i64) -> Result<SplitCancelled, SplitError> {
    if ctx.split_config.executed {
        Err(SplitError::AlreadyExecuted)
    } else if ctx.split_config.sender != ctx.sender {
        Err(SplitError::UnauthorizedSender)
    } else {
        Ok(
            SplitCancelled {
                sender: ctx.split_config.sender,
                nonce: ctx.split_config.nonce,
                timestamp: now,
            },
        )
    }
}

/// Withdraws a pending split. When this succeeds the caller deletes the
/// record and hands its storage deposit back to the sender; nothing is
/// paid to the recipients.
pub fn cancel_split(ctx: &CancelSplit, now: i64) -> (r: Result<SplitCancelled, SplitError>)
    ensures
        r == cancel_outcome(*ctx, now),
{
    if ctx.split_config.executed {
        return Err(SplitError::AlreadyExecuted);
    }
    if ctx.split_config.sender != ctx.sender {
        return Err(SplitError::UnauthorizedSender);
    }
    Ok(
        SplitCancelled {
            sender: ctx.split_config.sender,
            nonce: ctx.split_config.nonce,
            timestamp: now,
        },
    )
}

/// The accounts of a closure: the record and the caller.
#[derive(Clone, Copy, Debug, PartialEq, Eq)]
pub struct CloseSplit {
    /// The record to delete.
    pub split_config: SplitConfig,
    /// Who asks for the closure.
    pub sender: Pubkey,
}

/// What closing comes to: the first precondition that fails, or the event
/// that announces the closure.
pub open spec fn close_outcome(ctx: CloseSplit, now: i64) -> Result<SplitClosed, SplitError> {
    if !ctx.split_config.executed {
        Err(SplitError::NotExecuted)
    } else if ctx.split_config.sender != ctx.sender {
        Err(SplitError::UnauthorizedSender)
    } else {
        Ok(
            SplitClosed {
                sender: ctx.split_config.sender,
                nonce: ctx.split_config.nonce,
                timestamp: now,
            },
        )
    }
}

/// Deletes the record of an executed split. When this succeeds the caller
/// deletes the record and hands its storage deposit back to the sender.
pub fn close_split(ctx: &CloseSplit, now: i64) -> (r: Result<SplitClosed, SplitError>)
    ensures
        r == close_outcome(*ctx, now),
{
    if !ctx.split_config.executed {
        return Err(SplitError::NotExecuted);
    }
    if ctx.split_config.sender != ctx.sender {
        return Err(SplitError::UnauthorizedSender);
    }
    Ok(
        SplitClosed {
            sender: ctx.split_config.sender,
            nonce: ctx.split_config.nonce,
            timestamp: now,
        },
    )
}

} // verus!
