//! The counter-only variant: it tracks win/loss tallies for guessed coin
//! flips without moving any funds.
//!
//! Its oracle blends a clock timestamp with the first byte of a recent
//! block hash; both are read by the caller from the host and injected, so
//! the reduction to one bit is verified here and a test can force either
//! outcome.

use vstd::prelude::*;

use crate::keys::Pubkey;

verus! {

/// The running tallies, owned by the authority that created them.
#[derive(Clone, Copy, PartialEq, Eq, Structural, Debug)]
pub struct GameState {
    /// The identity that created the record.
    pub authority: Pubkey,
    /// How many flips were played.
    pub total_flips: u64,
    /// How many flips the players guessed right.
    pub total_wins: u64,
    /// How many flips the players guessed wrong.
    pub total_losses: u64,
}

impl GameState {
    /// The tallies always account for every flip.
    pub open spec fn wf(self) -> bool {
        self.total_wins + self.total_losses == self.total_flips
    }
}

/// What one flip reported back to the caller.
#[derive(Clone, Copy, PartialEq, Eq, Structural, Debug)]
pub struct FlipResult {
    /// Who played.
    pub player: Pubkey,
    /// What they guessed.
    pub user_guess: bool,
    /// What the oracle produced.
    pub result: bool,
    /// Whether guess and outcome agree.
    pub won: bool,
}

/// The bit this variant's oracle assigns to a timestamp and the first
/// byte of a recent block hash.
pub open spec fn blended_outcome(timestamp: u32, hash_byte: u8) -> bool {
    (timestamp ^ hash_byte as u32) % 2 == 0
}

/// Creates the tally record with every counter at zero.
pub fn initialize(authority: Pubkey) -> (r: GameState)
    ensures
        r == (GameState { authority, total_flips: 0, total_wins: 0, total_losses: 0 }),
        r.wf(),
{
    GameState { authority, total_flips: 0, total_wins: 0, total_losses: 0 }
}

/// Plays one flip: derives the outcome bit from the injected clock and
/// block-hash data, compares it with the player's guess, and counts the
/// flip as a win or a loss.
pub fn flip_coin(
    state: &mut GameState,
    player: Pubkey,
    user_guess: bool,
    timestamp: u32,
    hash_byte: u8,
) -> (r: FlipResult)
    requires
        old(state).wf(),
        old(state).total_flips < u64::MAX,
    ensures
        final(state).wf(),
        final(state).authority == old(state).authority,
        final(state).total_flips == old(state).total_flips + 1,
        r == (FlipResult {
            player,
            user_guess,
            result: blended_outcome(timestamp, hash_byte),
            won: user_guess == blended_outcome(timestamp, hash_byte),
        }),
        r.won ==> final(state).total_wins == old(state).total_wins + 1 && final(state).total_losses == old(state).total_losses,
        !r.won ==> final(state).total_losses == old(state).total_losses + 1 && final(state).total_wins == old(state).total_wins,
{
    let result = (timestamp ^ (hash_byte as u32)) % 2 == 0;
    let won = user_guess == result;
    state.total_flips = state.total_flips + 1;
    if won {
        state.total_wins = state.total_wins + 1;
    } else {
        state.total_losses = state.total_losses + 1;
    }
    FlipResult { player, user_guess, result, won }
}

} // verus!
