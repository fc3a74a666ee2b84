//! Scenarios around the activation of RFC0221, which changes the time from which a
//! relative timestamp lock is measured.

pub mod after_switch;
pub mod networking;

use vstd::prelude::*;

verus! {

/// The first epoch in which RFC0221 is in force.
pub const RFC0221_EPOCH_NUMBER: u64 = 3;

/// The blocks that a scenario mines past the activation before it builds its transaction.
pub const BLOCKS_PAST_SWITCH: u64 = 37;

/// The length of the relative lock under test, in seconds.
pub const RELATIVE_SECS: u64 = 2;

/// How often a scenario may find the lock still running before it gives up.
pub const ATTEMPT_BUDGET: u64 = 120;

/// Whether a chain whose current epoch is `epoch_number` has activated RFC0221.
pub fn is_rfc0221_switched(epoch_number: u64) -> (switched: bool)
    ensures
        switched == (epoch_number >= RFC0221_EPOCH_NUMBER),
{
    epoch_number >= RFC0221_EPOCH_NUMBER
}

} // verus!
