//! The outcome oracle: one bit of "randomness" derived from the current
//! ledger slot.
//!
//! This is deliberately weak: the outcome is a deterministic function of
//! public chain state, so anyone who can influence or predict the slot at
//! call time can bias the result. That manipulability is an accepted,
//! documented external risk, not a defect to repair here. The slot itself
//! is read by the caller from the host clock and injected, which also lets
//! a test force either outcome.

use vstd::prelude::*;

verus! {

/// The outcome the oracle assigns to a slot: the player wins on an even
/// slot.
pub open spec fn outcome_of_slot(slot: u64) -> bool {
    slot % 2 == 0
}

/// Reduces a ledger slot value to the single outcome bit.
pub fn coin_outcome(slot: u64) -> (r: bool)
    ensures
        r == outcome_of_slot(slot),
{
    slot % 2 == 0
}

} // verus!
