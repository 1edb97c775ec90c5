//! What holds of the operations, whatever they are called with.
//!
//! The laws on a single call are stated of the outcome of the operation;
//! those on what a call leaves behind are stated of the address that the
//! record lives at.

use vstd::prelude::*;
use crate::amounts::{lemma_share_within_amount, share_of, MINIMUM_SPLIT_AMOUNT};
use crate::error::SplitError;
use crate::instructions::{execute_outcome, initialize_outcome, ExecuteSplit, InitializeSplit};
use crate::pubkey::Pubkey;
use crate::slot::{SlotError, SplitSlot};

verus! {

/// Two percentages in 1..=99 that sum to 100 are accepted for any two
/// distinct recipients of which neither is the system program, and the
/// record that results is pending and well formed.
pub proof fn lemma_valid_split_accepted(
    ctx: InitializeSplit,
    recipient1_percentage: u8,
    recipient2_percentage: u8,
    nonce: u64,
    now: i64,
)
    requires
        recipient1_percentage + recipient2_percentage == 100,
        recipient1_percentage > 0,
        recipient2_percentage > 0,
        ctx.recipient1 != ctx.recipient2,
        !ctx.recipient1.is_system_program(),
        !ctx.recipient2.is_system_program(),
    ensures
        initialize_outcome(ctx, recipient1_percentage, recipient2_percentage, nonce, now) matches Ok(
            (record, _),
        ) && record.is_pending() && record.well_formed(),
{
}

/// Percentages that do not sum to 100 are refused as invalid, and a sum of
/// 100 with a zero in it is refused as a zero percentage, whoever the
/// recipients are.
pub proof fn lemma_bad_percentages_rejected(
    ctx: InitializeSplit,
    recipient1_percentage: u8,
    recipient2_percentage: u8,
    nonce: u64,
    now: i64,
)
    ensures
        recipient1_percentage + recipient2_percentage != 100 ==> (initialize_outcome(
            ctx,
            recipient1_percentage,
            recipient2_percentage,
            nonce,
            now,
        ) matches Err(SplitError::InvalidPercentages)),
        recipient1_percentage + recipient2_percentage == 100 && (recipient1_percentage == 0
            || recipient2_percentage == 0) ==> (initialize_outcome(
            ctx,
            recipient1_percentage,
            recipient2_percentage,
            nonce,
            now,
        ) matches Err(SplitError::ZeroPercentage)),
{
}

/// A split between one recipient and itself is never accepted, and with
/// valid percentages it is refused as a duplicate.
pub proof fn lemma_duplicate_recipient_rejected(
    ctx: InitializeSplit,
    recipient1_percentage: u8,
    recipient2_percentage: u8,
    nonce: u64,
    now: i64,
)
    requires
        ctx.recipient1 == ctx.recipient2,
    ensures
        initialize_outcome(ctx, recipient1_percentage, recipient2_percentage, nonce, now) is Err,
        recipient1_percentage + recipient2_percentage == 100 && recipient1_percentage > 0
            && recipient2_percentage > 0 ==> (initialize_outcome(
            ctx,
            recipient1_percentage,
            recipient2_percentage,
            nonce,
            now,
        ) matches Err(SplitError::DuplicateRecipient)),
{
}

/// An execution that goes through pays the first recipient its percentage
/// of the amount, rounded down, and the second recipient the rest: the two
/// payments add up to the amount exactly.
pub proof fn lemma_execution_shares(ctx: ExecuteSplit, amount: u64, now: i64)
    ensures
        execute_outcome(ctx, amount, now) matches Ok(event) ==> {
            &&& amount >= MINIMUM_SPLIT_AMOUNT
            &&& event.amount1 == share_of(amount, ctx.split_config.recipient1_percentage)
            &&& event.amount1 + event.amount2 == amount
            &&& event.total_amount == amount
        },
{
}

/// The sender of a pending, well-formed record who names its two
/// recipients and holds the amount can execute any amount from the minimum
/// up; no overflow stands in the way.
pub proof fn lemma_execution_owed(ctx: ExecuteSplit, amount: u64, now: i64)
    requires
        ctx.split_config.well_formed(),
        ctx.split_config.is_pending(),
        ctx.sender == ctx.split_config.sender,
        ctx.recipient1 == ctx.split_config.recipient1,
        ctx.recipient2 == ctx.split_config.recipient2,
        amount >= MINIMUM_SPLIT_AMOUNT,
        ctx.sender_lamports >= amount,
    ensures
        execute_outcome(ctx, amount, now) is Ok,
{
    lemma_share_within_amount(amount, ctx.split_config.recipient1_percentage);
}

/// With percentages that each lie in 1..=99 and sum to 100, no execution
/// is refused for an overflow, whatever the amount.
pub proof fn lemma_valid_record_never_overflows(ctx: ExecuteSplit, amount: u64, now: i64)
    requires
        ctx.split_config.percentages_valid(),
    ensures
        !(execute_outcome(ctx, amount, now) matches Err(SplitError::MathOverflow)),
{
    lemma_share_within_amount(amount, ctx.split_config.recipient1_percentage);
}

/// An amount below the minimum is never executed. Where the record is
/// pending and the caller and the recipients are the ones on record, the
/// refusal names the amount.
pub proof fn lemma_small_amount_rejected(ctx: ExecuteSplit, amount: u64, now: i64)
    requires
        amount < MINIMUM_SPLIT_AMOUNT,
    ensures
        execute_outcome(ctx, amount, now) is Err,
        ctx.split_config.is_pending() && ctx.sender == ctx.split_config.sender && ctx.recipient1
            == ctx.split_config.recipient1 && ctx.recipient2 == ctx.split_config.recipient2 ==> (
        execute_outcome(ctx, amount, now) matches Err(SplitError::AmountTooSmall)),
{
}

/// A split is committed to a vacant address only. An address that holds a
/// record refuses every commitment and keeps its record; a vacant address
/// takes the record of every commitment that its own checks accept, and
/// that record is pending.
pub proof fn lemma_commitment_needs_vacant_address(
    slot: SplitSlot,
    ctx: InitializeSplit,
    recipient1_percentage: u8,
    recipient2_percentage: u8,
    nonce: u64,
    now: i64,
)
    ensures
        ({
            let outcome = initialize_outcome(
                ctx,
                recipient1_percentage,
                recipient2_percentage,
                nonce,
                now,
            );
            let (left, answer) = slot.after_initialize(
                ctx,
                recipient1_percentage,
                recipient2_percentage,
                nonce,
                now,
            );
            &&& !slot.is_vacant() ==> left == slot
            &&& !slot.is_vacant() ==> (answer matches Err(SlotError::AddressInUse))
            &&& slot.is_vacant() ==> (answer is Ok <==> outcome is Ok)
            &&& slot.is_vacant() && outcome is Ok ==> left.is_pending() && left.well_formed()
            &&& slot.is_vacant() && outcome is Err ==> left == slot
        }),
{
}

/// A record is executed at most once. After an execution has gone through,
/// every further execution at the same address is refused as already
/// executed, whoever asks and for whatever amount; it leaves the record as
/// it is and orders no payment.
pub proof fn lemma_second_execution_refused(
    slot: SplitSlot,
    sender: Pubkey,
    sender_lamports: u64,
    recipient1: Pubkey,
    recipient2: Pubkey,
    amount: u64,
    now: i64,
    next_sender: Pubkey,
    next_sender_lamports: u64,
    next_recipient1: Pubkey,
    next_recipient2: Pubkey,
    next_amount: u64,
    later: i64,
)
    requires
        slot.after_execute(sender, sender_lamports, recipient1, recipient2, amount, now).1 is Ok,
    ensures
        ({
            let executed = slot.after_execute(
                sender,
                sender_lamports,
                recipient1,
                recipient2,
                amount,
                now,
            ).0;
            let (left, answer) = executed.after_execute(
                next_sender,
                next_sender_lamports,
                next_recipient1,
                next_recipient2,
                next_amount,
                later,
            );
            &&& executed.is_executed()
            &&& left == executed
            &&& answer matches Err(SlotError::Refused(SplitError::AlreadyExecuted))
        }),
{
}

/// Only the sender on record can act on a record. Execution, cancellation
/// and closure asked for by anyone else are refused and leave the address
/// as it was. The refusal names the caller wherever the record is in the
/// state that the operation is for: pending for execution and
/// cancellation, executed for closure.
pub proof fn lemma_stranger_refused(
    slot: SplitSlot,
    sender: Pubkey,
    sender_lamports: u64,
    recipient1: Pubkey,
    recipient2: Pubkey,
    amount: u64,
    now: i64,
)
    requires
        slot.record matches Some(record) && record.sender != sender,
    ensures
        ({
            let (after_execute, execution) = slot.after_execute(
                sender,
                sender_lamports,
                recipient1,
                recipient2,
                amount,
                now,
            );
            let (after_cancel, cancellation) = slot.after_cancel(sender, now);
            let (after_close, closure) = slot.after_close(sender, now);
            &&& after_execute == slot && execution is Err
            &&& after_cancel == slot && cancellation is Err
            &&& after_close == slot && closure is Err
            &&& slot.is_pending() ==> (execution matches Err(
                SlotError::Refused(SplitError::UnauthorizedSender),
            ))
            &&& slot.is_pending() ==> (cancellation matches Err(
                SlotError::Refused(SplitError::UnauthorizedSender),
            ))
            &&& slot.is_executed() ==> (closure matches Err(
                SlotError::Refused(SplitError::UnauthorizedSender),
            ))
        }),
{
}

/// Cancellation is for pending records and closure for executed ones: an
/// executed record cannot be cancelled, a pending one cannot be closed,
/// whoever asks, and the refused call leaves the address as it was.
pub proof fn lemma_cancel_and_close_by_state(slot: SplitSlot, sender: Pubkey, now: i64)
    ensures
        slot.is_executed() ==> slot.after_cancel(sender, now).0 == slot && (slot.after_cancel(
            sender,
            now,
        ).1 matches Err(SlotError::Refused(SplitError::AlreadyExecuted))),
        slot.is_pending() ==> slot.after_close(sender, now).0 == slot && (slot.after_close(
            sender,
            now,
        ).1 matches Err(SlotError::Refused(SplitError::NotExecuted))),
{
}

/// The address holds nothing, and an execution, a cancellation and a
/// closure there each find no record and leave it so.
pub open spec fn deleted(
    slot: SplitSlot,
    sender: Pubkey,
    sender_lamports: u64,
    recipient1: Pubkey,
    recipient2: Pubkey,
    amount: u64,
    now: i64,
) -> bool {
    let (after_execute, execution) = slot.after_execute(
        sender,
        sender_lamports,
        recipient1,
        recipient2,
        amount,
        now,
    );
    let (after_cancel, cancellation) = slot.after_cancel(sender, now);
    let (after_close, closure) = slot.after_close(sender, now);
    &&& slot.is_vacant()
    &&& after_execute == slot
    &&& after_cancel == slot
    &&& after_close == slot
    &&& execution matches Err(SlotError::RecordNotFound)
    &&& cancellation matches Err(SlotError::RecordNotFound)
    &&& closure matches Err(SlotError::RecordNotFound)
}

/// A cancellation or a closure that goes through deletes the record: the
/// address is vacant afterwards, and nothing can be executed, cancelled or
/// closed there, whoever asks; each such call is refused for want of a
/// record and leaves the address vacant.
pub proof fn lemma_deleted_record_not_found(
    slot: SplitSlot,
    owner: Pubkey,
    now: i64,
    sender: Pubkey,
    sender_lamports: u64,
    recipient1: Pubkey,
    recipient2: Pubkey,
    amount: u64,
    later: i64,
)
    ensures
        slot.after_cancel(owner, now).1 is Ok ==> slot.is_pending() && deleted(
            slot.after_cancel(owner, now).0,
            sender,
            sender_lamports,
            recipient1,
            recipient2,
            amount,
            later,
        ),
        slot.after_close(owner, now).1 is Ok ==> slot.is_executed() && deleted(
            slot.after_close(owner, now).0,
            sender,
            sender_lamports,
            recipient1,
            recipient2,
            amount,
            later,
        ),
{
}

/// An executed record never becomes pending again: whatever is asked of
/// it, the address holds the same record afterwards, or, after a closure,
/// nothing.
pub proof fn lemma_executed_is_final(
    slot: SplitSlot,
    ctx: InitializeSplit,
    recipient1_percentage: u8,
    recipient2_percentage: u8,
    nonce: u64,
    sender: Pubkey,
    sender_lamports: u64,
    recipient1: Pubkey,
    recipient2: Pubkey,
    amount: u64,
    now: i64,
)
    requires
        slot.is_executed(),
    ensures
        slot.after_initialize(ctx, recipient1_percentage, recipient2_percentage, nonce, now).0
            == slot,
        slot.after_execute(sender, sender_lamports, recipient1, recipient2, amount, now).0 == slot,
        slot.after_cancel(sender, now).0 == slot,
        slot.after_close(sender, now).0 == slot || slot.after_close(sender, now).0.is_vacant(),
{
}

} // verus!
