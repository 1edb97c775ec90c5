//! What each operation reports once it has gone through.

use vstd::prelude::*;
use crate::pubkey::Pubkey;

verus! {

/// A split was committed.
#[derive(Clone, Copy, Debug, PartialEq, Eq)]
pub struct SplitInitialized {
    pub sender: Pubkey,
    pub recipient1: Pubkey,
    pub recipient2: Pubkey,
    pub recipient1_percentage: u8,
    pub recipient2_percentage: u8,
    pub nonce: u64,
    pub timestamp: i64,
}

/// A split was executed: `amount1` goes from the sender to the first
/// recipient and `amount2` from the sender to the second.
#[derive(Clone, Copy, Debug, PartialEq, Eq)]
pub struct SplitExecuted {
    pub sender: Pubkey,
    pub recipient1: Pubkey,
    pub recipient2: Pubkey,
    pub amount1: u64,
    pub amount2: u64,
    pub total_amount: u64,
    pub timestamp: i64,
}

/// A pending split was withdrawn and its record deleted.
#[derive(Clone, Copy, Debug, PartialEq, Eq)]
pub struct SplitCancelled {
    pub sender: Pubkey,
    pub nonce: u64,
    pub timestamp: i64,
}

/// An executed split's record was deleted.
#[derive(Clone, Copy, Debug, PartialEq, Eq)]
pub struct SplitClosed {
    pub sender: Pubkey,
    pub nonce: u64,
    pub timestamp: i64,
}

} // verus!
