//! The self-settling variant: a single game account both receives a wager
//! and immediately pays it out, with no separate house account.
//!
//! A winning guess pays double the wager straight back out of the game
//! account; a losing wager simply stays in it. The whole instruction is
//! all-or-nothing: if the game account cannot cover a winning payout the
//! call fails and no balance or tally changes persist.

use vstd::prelude::*;

use crate::keys::Pubkey;
use crate::oracle::outcome_of_slot;

verus! {

/// The single game account: its owner and its running tallies.
#[derive(Clone, Copy, PartialEq, Eq, Structural, Debug)]
pub struct Game {
    /// The identity that created the game and collects it when closed.
    pub authority: Pubkey,
    /// A wager field carried in the record; set at creation and left
    /// untouched by the handlers.
    pub bet_amount: u64,
    /// How many bets were played.
    pub total_flips: u64,
    /// How many bets the players won.
    pub total_wins: u64,
}

impl Game {
    /// Wins never outnumber flips.
    pub open spec fn wf(self) -> bool {
        self.total_wins <= self.total_flips
    }
}

/// Why a bet was rejected.
#[derive(Clone, Copy, PartialEq, Eq, Structural, Debug)]
pub enum CustomError {
    /// A wager of zero was requested.
    InvalidBetAmount,
    /// The player's wallet does not cover the wager, so the funding
    /// transfer cannot be made.
    InsufficientPlayerBalance,
    /// The game account cannot cover a winning payout.
    InsufficientGameBalance,
}

/// The accounts a bet touches: the game record, the game account's
/// balance, and the player's wallet balance.
#[derive(Clone, Copy, PartialEq, Eq, Debug)]
pub struct PlaceBet {
    /// The game record.
    pub game: Game,
    /// The game account's balance.
    pub game_lamports: u64,
    /// The player's wallet balance.
    pub player_lamports: u64,
}

/// Creates the game record with every counter at zero.
pub fn initialize(authority: Pubkey) -> (r: Game)
    ensures
        r == (Game { authority, bet_amount: 0, total_flips: 0, total_wins: 0 }),
        r.wf(),
{
    Game { authority, bet_amount: 0, total_flips: 0, total_wins: 0 }
}

/// Plays one self-settling bet: moves the wager into the game account,
/// resolves the guess against the slot's outcome bit, and on a win pays
/// double the wager straight back to the player.
///
/// Every Ok outcome conserves funds: what the player loses the game
/// account gains, and the other way round.
pub fn place_bet(ctx: &mut PlaceBet, bet_amount: u64, guess: bool, slot: u64) -> (r: Result<
    (),
    CustomError,
>)
    requires
        old(ctx).game.wf(),
        old(ctx).game.total_flips < u64::MAX,
        old(ctx).game_lamports + bet_amount <= u64::MAX,
        guess == outcome_of_slot(slot) ==> old(ctx).player_lamports + bet_amount <= u64::MAX,
    ensures
        r is Ok <==> (bet_amount > 0 && bet_amount <= old(ctx).player_lamports && (guess
            == outcome_of_slot(slot) ==> old(ctx).game_lamports >= bet_amount)),
        bet_amount == 0 ==> r == Err::<(), CustomError>(CustomError::InvalidBetAmount),
        bet_amount > 0 && bet_amount > old(ctx).player_lamports ==> r == Err::<(), CustomError>(
            CustomError::InsufficientPlayerBalance,
        ),
        bet_amount > 0 && bet_amount <= old(ctx).player_lamports && guess == outcome_of_slot(slot)
            && old(ctx).game_lamports < bet_amount ==> r == Err::<(), CustomError>(
            CustomError::InsufficientGameBalance,
        ),
        r is Err ==> *final(ctx) == *old(ctx),
        r is Ok ==> final(ctx).game.wf() && final(ctx).game.authority == old(ctx).game.authority
            && final(ctx).game.total_flips == old(ctx).game.total_flips + 1 && final(ctx).game.bet_amount == old(ctx).game.bet_amount,
        r is Ok && guess == outcome_of_slot(slot) ==> final(ctx).game.total_wins == old(ctx).game.total_wins + 1 && final(ctx).player_lamports == old(ctx).player_lamports
            + bet_amount && final(ctx).game_lamports == old(ctx).game_lamports - bet_amount,
        r is Ok && guess != outcome_of_slot(slot) ==> final(ctx).game.total_wins == old(ctx).game.total_wins && final(ctx).player_lamports == old(ctx).player_lamports - bet_amount
            && final(ctx).game_lamports == old(ctx).game_lamports + bet_amount,
        r is Ok ==> old(ctx).player_lamports + old(ctx).game_lamports == final(ctx).player_lamports + final(ctx).game_lamports,
{
    if bet_amount == 0 {
        return Err(CustomError::InvalidBetAmount);
    }
    if bet_amount > ctx.player_lamports {
        return Err(CustomError::InsufficientPlayerBalance);
    }
    let result = slot % 2 == 0;
    if result == guess {
        // The payout is double the wager, drawn from the game account
        // right after the wager itself arrived there.
        if ctx.game_lamports < bet_amount {
            return Err(CustomError::InsufficientGameBalance);
        }
        ctx.player_lamports = ctx.player_lamports + bet_amount;
        ctx.game_lamports = ctx.game_lamports - bet_amount;
        ctx.game.total_wins = ctx.game.total_wins + 1;
    } else {
        ctx.player_lamports = ctx.player_lamports - bet_amount;
        ctx.game_lamports = ctx.game_lamports + bet_amount;
    }
    ctx.game.total_flips = ctx.game.total_flips + 1;
    Ok(())
}

/// The accounts closing touches: the game account's balance and the
/// authority's wallet balance.
#[derive(Clone, Copy, PartialEq, Eq, Debug)]
pub struct CloseGame {
    /// The game account's balance.
    pub game_lamports: u64,
    /// The authority's wallet balance.
    pub authority_lamports: u64,
}

/// Closes the game: moves the game account's whole remaining balance to
/// the authority.
pub fn close_game(ctx: &mut CloseGame) -> (r: Result<(), CustomError>)
    requires
        old(ctx).authority_lamports + old(ctx).game_lamports <= u64::MAX,
    ensures
        r is Ok,
        final(ctx).game_lamports == 0,
        final(ctx).authority_lamports == old(ctx).authority_lamports + old(ctx).game_lamports,
        final(ctx).authority_lamports + final(ctx).game_lamports == old(ctx).authority_lamports
            + old(ctx).game_lamports,
{
    let balance = ctx.game_lamports;
    ctx.game_lamports = ctx.game_lamports - balance;
    ctx.authority_lamports = ctx.authority_lamports + balance;
    Ok(())
}

} // verus!
