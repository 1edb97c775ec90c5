//! Verified core of a two-recipient payment split.
//!
//! A sender commits to dividing a future payment between two recipients by
//! fixed percentages, and later executes the payment exactly once. Until
//! then the sender can cancel; afterwards it can close the record.
//!
//! The library decides and computes; it moves no money and keeps no
//! storage. Each operation takes the accounts it concerns as plain values,
//! with the current time, and returns either the reason for its refusal or
//! the event that tells the caller what to carry out.

pub mod address;
pub mod amounts;
pub mod error;
pub mod events;
pub mod instructions;
pub mod laws;
pub mod pubkey;
pub mod slot;
pub mod state;

pub use crate::address::{create_split_config_address, find_split_config_address};
pub use crate::amounts::{split_amounts, MINIMUM_SPLIT_AMOUNT};
pub use crate::error::SplitError;
pub use crate::events::{SplitCancelled, SplitClosed, SplitExecuted, SplitInitialized};
pub use crate::instructions::{
    cancel_split, close_split, execute_split, initialize_split, CancelSplit, CloseSplit,
    ExecuteSplit, InitializeSplit,
};
pub use crate::pubkey::Pubkey;
pub use crate::slot::{SlotError, SplitSlot};
pub use crate::state::SplitConfig;
