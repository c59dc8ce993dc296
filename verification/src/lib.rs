//! A ledger-resident wagering engine: a deterministic state machine that
//! custodies player and house funds in escrow, resolves a binary wager
//! against a weak pseudo-random signal, and redistributes funds under a
//! fee model.
//!
//! The host ledger runtime (atomic instruction application, caller
//! authentication, account storage, the clock) is out of scope: each
//! instruction handler here is a pure transition on plain account values,
//! and the runtime inputs it needs (the authenticated caller, the current
//! slot) are passed in as arguments.
//!
//! [`keys`] derives account identities, [`state`] holds the two persisted
//! records, [`settlement`] carries the fee arithmetic and its conservation
//! laws, [`oracle`] reduces a slot to the outcome bit, [`instructions`]
//! implements the four operations, and [`ledger`] composes them into a
//! verified one-table session. [`tally`] and [`instant`] are the two
//! simpler sibling variants: one that only counts wins and losses, and one
//! whose single account self-settles each wager.

pub mod errors;
pub mod instant;
pub mod instructions;
pub mod keys;
pub mod ledger;
pub mod oracle;
pub mod settlement;
pub mod state;
pub mod tally;
