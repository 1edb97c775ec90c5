//! The life of a record at its address.
//!
//! The address derived from a sender and a nonce holds one record or none.
//! Committing a split fills a vacant address; executing it changes the
//! record in place; cancelling or closing it vacates the address again.
//! An operation that is refused leaves the address as it was.

use vstd::prelude::*;
use crate::error::SplitError;
use crate::events::{SplitCancelled, SplitClosed, SplitExecuted, SplitInitialized};
use crate::instructions::{
    cancel_outcome, cancel_split, close_outcome, close_split, execute_outcome, execute_split,
    initialize_outcome, initialize_split, CancelSplit, CloseSplit, ExecuteSplit, InitializeSplit,
};
use crate::pubkey::Pubkey;
use crate::state::SplitConfig;

verus! {

/// Why an operation at an address did not go through.
#[derive(Clone, Copy, Debug, PartialEq, Eq, Structural)]
pub enum SlotError {
    /// A split was committed to an address that already holds a record.
    AddressInUse,
    /// The address holds no record.
    RecordNotFound,
    /// The address was as it should be, and the operation refused.
    Refused(SplitError),
}

/// What the address of a split holds: a record, or nothing.
#[derive(Clone, Copy, Debug, PartialEq, Eq)]
pub struct SplitSlot {
    pub record: Option<SplitConfig>,
}

impl SplitSlot {
    /// The address holds nothing.
    pub open spec fn is_vacant(&self) -> bool {
        self.record is None
    }

    /// The address holds a record that awaits execution.
    pub open spec fn is_pending(&self) -> bool {
        self.record matches Some(record) && !record.executed
    }

    /// The address holds a record that has been executed.
    pub open spec fn is_executed(&self) -> bool {
        self.record matches Some(record) && record.executed
    }

    /// The record at the address, if there is one, is well formed.
    pub open spec fn well_formed(&self) -> bool {
        self.record matches Some(record) ==> record.well_formed()
    }

    /// The address after a commitment, and what the commitment returns.
    pub open spec fn after_initialize(
        &self,
        ctx: InitializeSplit,
        recipient1_percentage: u8,
        recipient2_percentage: u8,
        nonce: u64,
        now: i64,
    ) -> (SplitSlot, Result<SplitInitialized, SlotError>) {
        match self.record {
            Some(_) => (*self, Err(SlotError::AddressInUse)),
            None => match initialize_outcome(
                ctx,
                recipient1_percentage,
                recipient2_percentage,
                nonce,
                now,
            ) {
                Ok((record, event)) => (SplitSlot { record: Some(record) }, Ok(event)),
                Err(e) => (*self, Err(SlotError::Refused(e))),
            },
        }
    }

    /// The address after an execution, and what the execution returns.
    pub open spec fn after_execute(
        &self,
        sender: Pubkey,
        sender_lamports: u64,
        recipient1: Pubkey,
        recipient2: Pubkey,
        amount: u64,
        now: i64,
    ) -> (SplitSlot, Result<SplitExecuted, SlotError>) {
        match self.record {
            None => (*self, Err(SlotError::RecordNotFound)),
            Some(record) => match execute_outcome(
                ExecuteSplit { split_config: record, sender, sender_lamports, recipient1, recipient2 },
                amount,
                now,
            ) {
                Ok(event) => (SplitSlot { record: Some(record.after_execution(now)) }, Ok(event)),
                Err(e) => (*self, Err(SlotError::Refused(e))),
            },
        }
    }

    /// The address after a cancellation, and what the cancellation returns.
    pub open spec fn after_cancel(&self, sender: Pubkey, now: i64) -> (
        SplitSlot,
        Result<SplitCancelled, SlotError>,
    ) {
        match self.record {
            None => (*self, Err(SlotError::RecordNotFound)),
            Some(record) => match cancel_outcome(CancelSplit { split_config: record, sender }, now) {
                Ok(event) => (SplitSlot { record: None }, Ok(event)),
                Err(e) => (*self, Err(SlotError::Refused(e))),
            },
        }
    }

    /// The address after a closure, and what the closure returns.
    pub open spec fn after_close(&self, sender: Pubkey, now: i64) -> (
        SplitSlot,
        Result<SplitClosed, SlotError>,
    ) {
        match self.record {
            None => (*self, Err(SlotError::RecordNotFound)),
            Some(record) => match close_outcome(CloseSplit { split_config: record, sender }, now) {
                Ok(event) => (SplitSlot { record: None }, Ok(event)),
                Err(e) => (*self, Err(SlotError::Refused(e))),
            },
        }
    }

    /// An address that holds nothing.
    pub fn vacant() -> (r: SplitSlot)
        ensures
            r.is_vacant(),
    {
        SplitSlot { record: None }
    }

    /// Commits a split to this address, which must be vacant.
    pub fn initialize(
        &mut self,
        ctx: &InitializeSplit,
        recipient1_percentage: u8,
        recipient2_percentage: u8,
        nonce: u64,
        now: i64,
    ) -> (r: Result<SplitInitialized, SlotError>)
        ensures
            (*final(self), r) == old(self).after_initialize(
                *ctx,
                recipient1_percentage,
                recipient2_percentage,
                nonce,
                now,
            ),
            old(self).well_formed() ==> final(self).well_formed(),
    {
        if self.record.is_some() {
            return Err(SlotError::AddressInUse);
        }
        match initialize_split(ctx, recipient1_percentage, recipient2_percentage, nonce, now) {
            Ok((record, event)) => {
                self.record = Some(record);
                Ok(event)
            },
            Err(e) => Err(SlotError::Refused(e)),
        }
    }

    /// Executes the split at this address for the caller `sender`, who
    /// holds `sender_lamports` and offers the two recipients' accounts.
    pub fn execute(
        &mut self,
        sender: Pubkey,
        sender_lamports: u64,
        recipient1: Pubkey,
        recipient2: Pubkey,
        amount: u64,
        now: i64,
    ) -> (r: Result<SplitExecuted, SlotError>)
        ensures
            (*final(self), r) == old(self).after_execute(
                sender,
                sender_lamports,
                recipient1,
                recipient2,
                amount,
                now,
            ),
            old(self).well_formed() ==> final(self).well_formed(),
    {
        let record = match self.record {
            Some(record) => record,
            None => {
                return Err(SlotError::RecordNotFound);
            },
        };
        let mut ctx = ExecuteSplit {
            split_config: record,
            sender,
            sender_lamports,
            recipient1,
            recipient2,
        };
        match execute_split(&mut ctx, amount, now) {
            Ok(event) => {
                self.record = Some(ctx.split_config);
                Ok(event)
            },
            Err(e) => Err(SlotError::Refused(e)),
        }
    }

    /// Cancels the pending split at this address for the caller `sender`,
    /// and vacates the address.
    pub fn cancel(&mut self, sender: Pubkey, now: i64) -> (r: Result<SplitCancelled, SlotError>)
        ensures
            (*final(self), r) == old(self).after_cancel(sender, now),
            old(self).well_formed() ==> final(self).well_formed(),
    {
        let record = match self.record {
            Some(record) => record,
            None => {
                return Err(SlotError::RecordNotFound);
            },
        };
        match cancel_split(&CancelSplit { split_config: record, sender }, now) {
            Ok(event) => {
                self.record = None;
                Ok(event)
            },
            Err(e) => Err(SlotError::Refused(e)),
        }
    }

    /// Closes the executed split at this address for the caller `sender`,
    /// and vacates the address.
    pub fn close(&mut self, sender: Pubkey, now: i64) -> (r: Result<SplitClosed, SlotError>)
        ensures
            (*final(self), r) == old(self).after_close(sender, now),
            old(self).well_formed() ==> final(self).well_formed(),
    {
        let record = match self.record {
            Some(record) => record,
            None => {
                return Err(SlotError::RecordNotFound);
            },
        };
        match close_split(&CloseSplit { split_config: record, sender }, now) {
            Ok(event) => {
                self.record = None;
                Ok(event)
            },
            Err(e) => Err(SlotError::Refused(e)),
        }
    }
}

} // verus!
