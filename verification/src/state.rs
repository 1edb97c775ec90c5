//! The split record.

use vstd::prelude::*;
use crate::pubkey::Pubkey;

verus! {

/// One sender's commitment to divide a future payment between two
/// recipients. The record starts pending, is executed at most once, and
/// its percentages never change.
#[derive(Clone, Copy, Debug, PartialEq, Eq)]
pub struct SplitConfig {
    /// Who committed the split, and the only one who may act on it.
    pub sender: Pubkey,
    /// Who receives the first share.
    pub recipient1: Pubkey,
    /// Who receives the rest.
    pub recipient2: Pubkey,
    /// The first recipient's share, in percent.
    pub recipient1_percentage: u8,
    /// The second recipient's share, in percent.
    pub recipient2_percentage: u8,
    /// Whether the payment has been made.
    pub executed: bool,
    /// Chosen by the sender, to tell its records apart.
    pub nonce: u64,
    /// When the record was created, in seconds since the epoch.
    pub created_at: i64,
    /// When the payment was made, and 0 until then.
    pub executed_at: i64,
    /// The bump seed of the record's address.
    pub bump: u8,
}

impl SplitConfig {
    /// The two percentages are in 1..=99 and sum to 100.
    pub open spec fn percentages_valid(&self) -> bool {
        &&& self.recipient1_percentage > 0
        &&& self.recipient2_percentage > 0
        &&& self.recipient1_percentage + self.recipient2_percentage == 100
    }

    /// The two recipients differ, and neither is the system program.
    pub open spec fn recipients_valid(&self) -> bool {
        &&& self.recipient1 != self.recipient2
        &&& !self.recipient1.is_system_program()
        &&& !self.recipient2.is_system_program()
    }

    /// What holds of every record from its creation on.
    pub open spec fn well_formed(&self) -> bool {
        &&& self.percentages_valid()
        &&& self.recipients_valid()
        &&& !self.executed ==> self.executed_at == 0
    }

    /// The record awaits execution.
    pub open spec fn is_pending(&self) -> bool {
        !self.executed
    }

    /// The record once its payment has been made at time `now`: only the
    /// execution flag and time differ.
    pub open spec fn after_execution(&self, now: i64) -> SplitConfig {
        SplitConfig { executed: true, executed_at: now, ..*self }
    }
}

} // verus!
