//! The four invocable instructions: Initialize, PlaceBet, FlipCoin and
//! Withdraw.
//!
//! Each handler is one synchronous, all-or-nothing transition: it takes the
//! accounts the instruction touches (already loaded and authenticated by
//! the host), re-derives and compares every derived address it was handed,
//! runs its checks, and either mutates every balance of the transition as
//! one unit or mutates nothing and reports the reason.

use vstd::prelude::*;

use crate::errors::CustomError;
use crate::keys::Address;
use crate::keys::CANONICAL_BUMP;
use crate::keys::Pubkey;
use crate::keys::derive_game_address;
use crate::keys::derive_house_address;
use crate::oracle::coin_outcome;
use crate::oracle::outcome_of_slot;
use crate::settlement::escrow_debit_of;
use crate::settlement::fee_amount;
use crate::settlement::house_credit_of;
use crate::settlement::payout_amount;
use crate::settlement::player_credit_of;
use crate::state::Game;
use crate::state::House;

verus! {

/// The accounts Initialize touches: the (not yet existing) house record at
/// its derived address, and the authenticated caller who becomes the
/// authority.
#[derive(Clone, Copy, PartialEq, Eq, Debug)]
pub struct Initialize {
    /// The record stored at `house_address`; `None` while the address is
    /// unused.
    pub house: Option<House>,
    /// The house address the caller supplied.
    pub house_address: Address,
    /// The authenticated caller.
    pub authority: Pubkey,
}

/// The house record Initialize creates for a given authority and fee.
pub open spec fn created_house(authority: Pubkey, house_fee: u8) -> House {
    House { authority, fee: house_fee, bump: CANONICAL_BUMP, lamports: 0 }
}

/// Creates the house: stores the caller as its immutable authority, the
/// fee rate, and the derivation bump, with a zero starting balance.
///
/// Creation is one-time: a second call for the same derived address finds
/// the record in place and is rejected, leaving the original untouched.
pub fn initialize(ctx: &mut Initialize, house_fee: u8) -> (r: Result<(), CustomError>)
    ensures
        r is Ok <==> (old(ctx).house_address == Address::HousePda && old(ctx).house is None
            && house_fee <= 100),
        old(ctx).house_address != Address::HousePda ==> r == Err::<(), CustomError>(
            CustomError::AddressMismatch,
        ),
        old(ctx).house_address == Address::HousePda && old(ctx).house is Some ==> r == Err::<
            (),
            CustomError,
        >(CustomError::AccountAlreadyExists),
        old(ctx).house_address == Address::HousePda && old(ctx).house is None && house_fee > 100
            ==> r == Err::<(), CustomError>(CustomError::InvalidHouseFee),
        r is Err ==> *final(ctx) == *old(ctx),
        r is Ok ==> final(ctx).house == Some(created_house(old(ctx).authority, house_fee)),
        r is Ok ==> final(ctx).house.unwrap().wf(),
        final(ctx).house_address == old(ctx).house_address,
        final(ctx).authority == old(ctx).authority,
{
    let (expected, _bump) = derive_house_address();
    if !(ctx.house_address == expected) {
        return Err(CustomError::AddressMismatch);
    }
    if ctx.house.is_some() {
        return Err(CustomError::AccountAlreadyExists);
    }
    if house_fee > 100 {
        return Err(CustomError::InvalidHouseFee);
    }
    ctx.house = Some(
        House { authority: ctx.authority, fee: house_fee, bump: CANONICAL_BUMP, lamports: 0 },
    );
    Ok(())
}

/// The accounts PlaceBet touches: the (not yet existing) game record at
/// the caller's derived escrow address, and the caller's wallet balance.
#[derive(Clone, Copy, PartialEq, Eq, Debug)]
pub struct PlaceBet {
    /// The record stored at `game_address`; `None` while the address is
    /// unused.
    pub game: Option<Game>,
    /// The game escrow address the caller supplied.
    pub game_address: Address,
    /// The authenticated caller placing the wager.
    pub player: Pubkey,
    /// The caller's wallet balance.
    pub player_lamports: u64,
}

/// The game record PlaceBet creates for a given player and wager.
pub open spec fn created_game(player: Pubkey, bet_amount: u64) -> Game {
    Game {
        player,
        bet_amount,
        settled: false,
        won: false,
        bump: CANONICAL_BUMP,
        lamports: bet_amount,
    }
}

/// Opens a wager: moves `bet_amount` from the caller's wallet into a newly
/// created game escrow at the caller's derived address. From this point the
/// funds are program-custodied; only settlement can move them again.
pub fn place_bet(ctx: &mut PlaceBet, bet_amount: u64) -> (r: Result<(), CustomError>)
    ensures
        r is Ok <==> (old(ctx).game_address == Address::GamePda(old(ctx).player) && old(ctx).game is None && bet_amount > 0 && bet_amount <= old(ctx).player_lamports),
        old(ctx).game_address != Address::GamePda(old(ctx).player) ==> r == Err::<(), CustomError>(
            CustomError::AddressMismatch,
        ),
        old(ctx).game_address == Address::GamePda(old(ctx).player) && old(ctx).game is Some ==> r
            == Err::<(), CustomError>(CustomError::AccountAlreadyExists),
        old(ctx).game_address == Address::GamePda(old(ctx).player) && old(ctx).game is None
            && bet_amount == 0 ==> r == Err::<(), CustomError>(CustomError::InvalidBetAmount),
        old(ctx).game_address == Address::GamePda(old(ctx).player) && old(ctx).game is None
            && bet_amount > 0 && bet_amount > old(ctx).player_lamports ==> r == Err::<
            (),
            CustomError,
        >(CustomError::InsufficientPlayerBalance),
        r is Err ==> *final(ctx) == *old(ctx),
        r is Ok ==> final(ctx).game == Some(created_game(old(ctx).player, bet_amount)),
        r is Ok ==> final(ctx).game.unwrap().wf(),
        r is Ok ==> final(ctx).player_lamports == old(ctx).player_lamports - bet_amount,
        r is Ok ==> old(ctx).player_lamports - final(ctx).player_lamports == final(ctx).game.unwrap().lamports,
        final(ctx).player == old(ctx).player,
        final(ctx).game_address == old(ctx).game_address,
{
    let (expected, _bump) = derive_game_address(ctx.player);
    if !(ctx.game_address == expected) {
        return Err(CustomError::AddressMismatch);
    }
    if ctx.game.is_some() {
        return Err(CustomError::AccountAlreadyExists);
    }
    if bet_amount == 0 {
        return Err(CustomError::InvalidBetAmount);
    }
    if bet_amount > ctx.player_lamports {
        return Err(CustomError::InsufficientPlayerBalance);
    }
    ctx.player_lamports = ctx.player_lamports - bet_amount;
    ctx.game = Some(
        Game {
            player: ctx.player,
            bet_amount,
            settled: false,
            won: false,
            bump: CANONICAL_BUMP,
            lamports: bet_amount,
        },
    );
    Ok(())
}

/// The accounts FlipCoin touches: the open game, the house, and the wallet
/// balance of the game's recorded player (the payout target).
#[derive(Clone, Copy, PartialEq, Eq, Debug)]
pub struct FlipCoin {
    /// The game to settle.
    pub game: Game,
    /// The game address the caller supplied.
    pub game_address: Address,
    /// The house.
    pub house: House,
    /// The house address the caller supplied.
    pub house_address: Address,
    /// The wallet balance of `game.player`.
    pub player_lamports: u64,
}

impl FlipCoin {
    /// Both records obey their lifetime invariants.
    pub open spec fn wf(self) -> bool {
        self.house.wf() && self.game.wf()
    }

    /// Both supplied addresses match their recomputed derived identities,
    /// and both stored bumps re-verify.
    pub open spec fn addresses_ok(self) -> bool {
        &&& self.game_address == Address::GamePda(self.game.player)
        &&& self.game.bump == CANONICAL_BUMP
        &&& self.house_address == Address::HousePda
        &&& self.house.bump == CANONICAL_BUMP
    }

    /// The escrow holds enough to cover the full settlement debit for the
    /// given outcome.
    pub open spec fn escrow_covers(self, won: bool) -> bool {
        self.game.lamports >= escrow_debit_of(
            won,
            self.game.bet_amount as int,
            self.house.fee as int,
        )
    }

    /// The instruction succeeds: addresses check out, the game is still
    /// open, and the escrow covers the outcome's debit.
    pub open spec fn settles(self, slot: u64) -> bool {
        self.addresses_ok() && !self.game.settled && self.escrow_covers(outcome_of_slot(slot))
    }
}

/// Settles an open wager against the outcome the oracle assigns to `slot`.
///
/// On a win the escrow pays the player `payout = 2*bet - fee` and the house
/// `fee = bet * rate / 100`; on a loss the full wager goes to the house.
/// The escrow is checked to cover the whole debit before anything moves, so
/// the transition is all-or-nothing. Settlement is terminal: the game's
/// `settled` flag flips false to true exactly once, and a repeat call is
/// rejected with every balance unchanged.
pub fn flip_coin(ctx: &mut FlipCoin, slot: u64) -> (r: Result<(), CustomError>)
    requires
        old(ctx).wf(),
        old(ctx).addresses_ok() && !old(ctx).game.settled ==> old(ctx).game.bet_amount * old(ctx).house.fee <= u64::MAX && 2 * old(ctx).game.bet_amount <= u64::MAX,
        old(ctx).settles(slot) ==> old(ctx).player_lamports + player_credit_of(
            outcome_of_slot(slot),
            old(ctx).game.bet_amount as int,
            old(ctx).house.fee as int,
        ) <= u64::MAX && old(ctx).house.lamports + house_credit_of(
            outcome_of_slot(slot),
            old(ctx).game.bet_amount as int,
            old(ctx).house.fee as int,
        ) <= u64::MAX,
    ensures
        r is Ok <==> old(ctx).settles(slot),
        !old(ctx).addresses_ok() ==> r == Err::<(), CustomError>(CustomError::AddressMismatch),
        old(ctx).addresses_ok() && old(ctx).game.settled ==> r == Err::<(), CustomError>(
            CustomError::GameAlreadySettled,
        ),
        old(ctx).addresses_ok() && !old(ctx).game.settled && !old(ctx).escrow_covers(
            outcome_of_slot(slot),
        ) ==> r == Err::<(), CustomError>(CustomError::InsufficientEscrowBalance),
        r is Err ==> *final(ctx) == *old(ctx),
        r is Ok ==> final(ctx).game.settled && final(ctx).game.won == outcome_of_slot(slot),
        r is Ok ==> final(ctx).game.player == old(ctx).game.player && final(ctx).game.bet_amount
            == old(ctx).game.bet_amount && final(ctx).game.bump == old(ctx).game.bump,
        r is Ok ==> final(ctx).house.authority == old(ctx).house.authority && final(ctx).house.fee
            == old(ctx).house.fee && final(ctx).house.bump == old(ctx).house.bump,
        r is Ok ==> final(ctx).game.lamports == old(ctx).game.lamports - escrow_debit_of(
            outcome_of_slot(slot),
            old(ctx).game.bet_amount as int,
            old(ctx).house.fee as int,
        ),
        r is Ok ==> final(ctx).player_lamports == old(ctx).player_lamports + player_credit_of(
            outcome_of_slot(slot),
            old(ctx).game.bet_amount as int,
            old(ctx).house.fee as int,
        ),
        r is Ok ==> final(ctx).house.lamports == old(ctx).house.lamports + house_credit_of(
            outcome_of_slot(slot),
            old(ctx).game.bet_amount as int,
            old(ctx).house.fee as int,
        ),
        r is Ok ==> old(ctx).game.lamports - final(ctx).game.lamports == (final(ctx).player_lamports - old(ctx).player_lamports) + (final(ctx).house.lamports - old(ctx).house.lamports),
        final(ctx).game_address == old(ctx).game_address,
        final(ctx).house_address == old(ctx).house_address,
{
    let (expected_game, game_bump) = derive_game_address(ctx.game.player);
    let (expected_house, house_bump) = derive_house_address();
    if !(ctx.game_address == expected_game && ctx.game.bump == game_bump && ctx.house_address
        == expected_house && ctx.house.bump == house_bump) {
        return Err(CustomError::AddressMismatch);
    }
    if ctx.game.settled {
        return Err(CustomError::GameAlreadySettled);
    }
    let won = coin_outcome(slot);
    let fee = fee_amount(ctx.game.bet_amount, ctx.house.fee);
    let payout = payout_amount(ctx.game.bet_amount, ctx.house.fee);
    if won {
        if ctx.game.lamports < payout || ctx.game.lamports - payout < fee {
            return Err(CustomError::InsufficientEscrowBalance);
        }
        ctx.game.lamports = ctx.game.lamports - payout;
        ctx.player_lamports = ctx.player_lamports + payout;
        ctx.game.lamports = ctx.game.lamports - fee;
        ctx.house.lamports = ctx.house.lamports + fee;
    } else {
        if ctx.game.lamports < ctx.game.bet_amount {
            return Err(CustomError::InsufficientEscrowBalance);
        }
        ctx.game.lamports = ctx.game.lamports - ctx.game.bet_amount;
        ctx.house.lamports = ctx.house.lamports + ctx.game.bet_amount;
    }
    ctx.game.settled = true;
    ctx.game.won = won;
    Ok(())
}

/// The accounts Withdraw touches: the house, and the wallet balance of the
/// authenticated caller.
#[derive(Clone, Copy, PartialEq, Eq, Debug)]
pub struct Withdraw {
    /// The house to debit.
    pub house: House,
    /// The house address the caller supplied.
    pub house_address: Address,
    /// The authenticated caller.
    pub authority: Pubkey,
    /// The caller's wallet balance.
    pub authority_lamports: u64,
}

impl Withdraw {
    /// The supplied house address matches its recomputed derived identity
    /// and the stored bump re-verifies.
    pub open spec fn addresses_ok(self) -> bool {
        self.house_address == Address::HousePda && self.house.bump == CANONICAL_BUMP
    }

    /// The instruction succeeds: the address checks out, the caller is the
    /// stored authority, and the balance covers the request.
    pub open spec fn permits(self, amount: u64) -> bool {
        self.addresses_ok() && self.authority == self.house.authority && amount
            <= self.house.lamports
    }
}

/// Withdraws house funds to the authority's wallet.
///
/// Succeeds exactly when the caller is the stored authority and the house
/// balance covers the request; any other caller is rejected with the house
/// untouched, so the balance never drops below zero.
pub fn withdraw(ctx: &mut Withdraw, amount: u64) -> (r: Result<(), CustomError>)
    requires
        old(ctx).permits(amount) ==> old(ctx).authority_lamports + amount <= u64::MAX,
    ensures
        r is Ok <==> old(ctx).permits(amount),
        !old(ctx).addresses_ok() ==> r == Err::<(), CustomError>(CustomError::AddressMismatch),
        old(ctx).addresses_ok() && old(ctx).authority != old(ctx).house.authority ==> r == Err::<
            (),
            CustomError,
        >(CustomError::UnauthorizedWithdrawal),
        old(ctx).addresses_ok() && old(ctx).authority == old(ctx).house.authority && amount > old(ctx).house.lamports ==> r == Err::<(), CustomError>(CustomError::InsufficientFunds),
        r is Err ==> *final(ctx) == *old(ctx),
        r is Ok ==> final(ctx).house.lamports == old(ctx).house.lamports - amount,
        r is Ok ==> final(ctx).authority_lamports == old(ctx).authority_lamports + amount,
        r is Ok ==> old(ctx).house.lamports - final(ctx).house.lamports == final(ctx).authority_lamports - old(ctx).authority_lamports,
        final(ctx).house.authority == old(ctx).house.authority,
        final(ctx).house.fee == old(ctx).house.fee,
        final(ctx).house.bump == old(ctx).house.bump,
        final(ctx).house_address == old(ctx).house_address,
        final(ctx).authority == old(ctx).authority,
{
    let (expected, _bump) = derive_house_address();
    if !(ctx.house_address == expected && ctx.house.bump == CANONICAL_BUMP) {
        return Err(CustomError::AddressMismatch);
    }
    if !(ctx.authority == ctx.house.authority) {
        return Err(CustomError::UnauthorizedWithdrawal);
    }
    if amount > ctx.house.lamports {
        return Err(CustomError::InsufficientFunds);
    }
    ctx.house.lamports = ctx.house.lamports - amount;
    ctx.authority_lamports = ctx.authority_lamports + amount;
    Ok(())
}

} // verus!
