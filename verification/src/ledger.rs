//! A verified one-table ledger: one house, one player, and the wallets of
//! both, driven through the four instructions.
//!
//! The host runtime serializes instructions per account, so a table like
//! this is exactly what one interleaving of calls observes. Composing the
//! handlers here proves the session-level laws: no instruction ever
//! creates or destroys funds (the table's total is conserved), every
//! account invariant survives every call, and a failed instruction leaves
//! the whole table untouched.

use vstd::prelude::*;

use crate::errors::CustomError;
use crate::instructions::FlipCoin;
use crate::instructions::Initialize;
use crate::instructions::PlaceBet;
use crate::instructions::Withdraw;
use crate::instructions::flip_coin;
use crate::instructions::initialize;
use crate::instructions::place_bet;
use crate::instructions::withdraw;
use crate::keys::CANONICAL_BUMP;
use crate::keys::Pubkey;
use crate::keys::derive_game_address;
use crate::keys::derive_house_address;
use crate::oracle::outcome_of_slot;
use crate::settlement::escrow_debit_of;
use crate::settlement::house_credit_of;
use crate::settlement::lemma_fee_bounds;
use crate::settlement::player_credit_of;
use crate::state::Game;
use crate::state::House;

verus! {

/// One table: the house record and the player's game escrow, each `None`
/// while its derived address is unused, plus the two wallets involved.
pub struct Ledger {
    /// The wagering party.
    pub player: Pubkey,
    /// The identity that creates and later drains the house.
    pub authority: Pubkey,
    /// The record at the derived house address.
    pub house: Option<House>,
    /// The record at the player's derived game address.
    pub game: Option<Game>,
    /// The player's wallet balance.
    pub player_wallet: u64,
    /// The authority's wallet balance.
    pub authority_wallet: u64,
}

impl Ledger {
    /// What the house vault holds.
    pub open spec fn house_lamports(self) -> int {
        if self.house is Some {
            self.house.unwrap().lamports as int
        } else {
            0
        }
    }

    /// What the game escrow holds.
    pub open spec fn escrow_lamports(self) -> int {
        if self.game is Some {
            self.game.unwrap().lamports as int
        } else {
            0
        }
    }

    /// Every balance on the table, wallets and custodial accounts alike.
    pub open spec fn total(self) -> int {
        self.player_wallet + self.authority_wallet + self.house_lamports()
            + self.escrow_lamports()
    }

    /// The table's invariant: distinct parties, a total that fits a
    /// balance, and both records well-formed, bound to their owners, and
    /// carrying re-verifiable bumps. A stored wager is small enough that
    /// its settlement arithmetic fits a balance.
    pub open spec fn wf(self) -> bool {
        &&& self.player != self.authority
        &&& self.total() <= u64::MAX
        &&& (self.house is Some ==> self.house.unwrap().wf() && self.house.unwrap().bump
            == CANONICAL_BUMP && self.house.unwrap().authority == self.authority)
        &&& (self.game is Some ==> self.game.unwrap().wf() && self.game.unwrap().bump
            == CANONICAL_BUMP && self.game.unwrap().player == self.player && 100 * self.game.unwrap().bet_amount
            <= u64::MAX)
    }
}

impl Ledger {
    /// Opens a table: two funded wallets, no house, no game.
    pub fn new(player: Pubkey, authority: Pubkey, player_funds: u64, authority_funds: u64) -> (r:
        Ledger)
        requires
            player != authority,
            player_funds + authority_funds <= u64::MAX,
        ensures
            r.wf(),
            r.house is None,
            r.game is None,
            r.player == player,
            r.authority == authority,
            r.player_wallet == player_funds,
            r.authority_wallet == authority_funds,
            r.total() == player_funds + authority_funds,
    {
        Ledger {
            player,
            authority,
            house: None,
            game: None,
            player_wallet: player_funds,
            authority_wallet: authority_funds,
        }
    }

    /// Runs Initialize as the authority. Conserves the table's total and
    /// fails without effect if the house already exists or the fee is out
    /// of range.
    pub fn run_initialize(&mut self, house_fee: u8) -> (r: Result<(), CustomError>)
        requires
            old(self).wf(),
        ensures
            final(self).wf(),
            final(self).total() == old(self).total(),
            r is Ok <==> (old(self).house is None && house_fee <= 100),
            r is Err ==> *final(self) == *old(self),
            r is Ok ==> final(self).house is Some && final(self).house.unwrap().fee == house_fee
                && final(self).house.unwrap().authority == old(self).authority && final(self).house.unwrap().lamports == 0,
            final(self).game == old(self).game,
            final(self).player_wallet == old(self).player_wallet,
            final(self).authority_wallet == old(self).authority_wallet,
            final(self).player == old(self).player,
            final(self).authority == old(self).authority,
    {
        let (house_address, _bump) = derive_house_address();
        let mut ctx = Initialize { house: self.house, house_address, authority: self.authority };
        let r = initialize(&mut ctx, house_fee);
        self.house = ctx.house;
        r
    }

    /// A plain transfer from the authority's wallet into the house vault:
    /// the bankroll out of which winning fees are ultimately covered.
    /// Refused without effect when the wallet cannot cover it.
    pub fn bankroll(&mut self, amount: u64) -> (r: bool)
        requires
            old(self).wf(),
            old(self).house is Some,
        ensures
            final(self).wf(),
            final(self).total() == old(self).total(),
            r <==> amount <= old(self).authority_wallet,
            !r ==> *final(self) == *old(self),
            r ==> final(self).authority_wallet == old(self).authority_wallet - amount && final(self).house.unwrap().lamports == old(self).house.unwrap().lamports + amount,
            final(self).house is Some,
            r ==> final(self).house.unwrap().fee == old(self).house.unwrap().fee && final(self).house.unwrap().authority == old(self).house.unwrap().authority && final(self).house.unwrap().bump == old(self).house.unwrap().bump,
            final(self).game == old(self).game,
            final(self).player_wallet == old(self).player_wallet,
            final(self).player == old(self).player,
            final(self).authority == old(self).authority,
    {
        if amount > self.authority_wallet {
            return false;
        }
        let mut house = self.house.unwrap();
        self.authority_wallet = self.authority_wallet - amount;
        house.lamports = house.lamports + amount;
        self.house = Some(house);
        true
    }

    /// A plain transfer from the house vault into the player's escrow: the
    /// explicit house-to-escrow funding step a winning settlement needs,
    /// since PlaceBet escrows only the wager itself. Refused without
    /// effect when the vault cannot cover it.
    pub fn fund_escrow(&mut self, amount: u64) -> (r: bool)
        requires
            old(self).wf(),
            old(self).house is Some,
            old(self).game is Some,
        ensures
            final(self).wf(),
            final(self).total() == old(self).total(),
            r <==> amount <= old(self).house.unwrap().lamports,
            !r ==> *final(self) == *old(self),
            r ==> final(self).house.unwrap().lamports == old(self).house.unwrap().lamports
                - amount && final(self).game.unwrap().lamports == old(self).game.unwrap().lamports
                + amount,
            final(self).house is Some,
            final(self).game is Some,
            r ==> final(self).house.unwrap().fee == old(self).house.unwrap().fee && final(self).house.unwrap().authority == old(self).house.unwrap().authority && final(self).house.unwrap().bump == old(self).house.unwrap().bump,
            r ==> final(self).game.unwrap().player == old(self).game.unwrap().player && final(self).game.unwrap().bet_amount == old(self).game.unwrap().bet_amount && final(self).game.unwrap().settled == old(self).game.unwrap().settled && final(self).game.unwrap().won == old(self).game.unwrap().won && final(self).game.unwrap().bump == old(self).game.unwrap().bump,
            final(self).player_wallet == old(self).player_wallet,
            final(self).authority_wallet == old(self).authority_wallet,
            final(self).player == old(self).player,
            final(self).authority == old(self).authority,
    {
        if amount > self.house.unwrap().lamports {
            return false;
        }
        let mut house = self.house.unwrap();
        let mut game = self.game.unwrap();
        house.lamports = house.lamports - amount;
        game.lamports = game.lamports + amount;
        self.house = Some(house);
        self.game = Some(game);
        true
    }

    /// Runs PlaceBet as the player. The wager bound keeps every later
    /// settlement product within a balance. Conserves the table's total:
    /// what leaves the wallet is exactly what the new escrow holds.
    pub fn run_place_bet(&mut self, bet_amount: u64) -> (r: Result<(), CustomError>)
        requires
            old(self).wf(),
            100 * bet_amount <= u64::MAX,
        ensures
            final(self).wf(),
            final(self).total() == old(self).total(),
            r is Ok <==> (old(self).game is None && bet_amount > 0 && bet_amount <= old(self).player_wallet),
            r is Err ==> *final(self) == *old(self),
            r is Ok ==> final(self).game is Some && !final(self).game.unwrap().settled && final(self).game.unwrap().bet_amount == bet_amount && final(self).game.unwrap().lamports
                == bet_amount && final(self).player_wallet == old(self).player_wallet - bet_amount,
            r is Ok ==> final(self).game.unwrap().player == old(self).player,
            final(self).house == old(self).house,
            final(self).authority_wallet == old(self).authority_wallet,
            final(self).player == old(self).player,
            final(self).authority == old(self).authority,
    {
        let (game_address, _bump) = derive_game_address(self.player);
        let mut ctx = PlaceBet {
            game: self.game,
            game_address,
            player: self.player,
            player_lamports: self.player_wallet,
        };
        let r = place_bet(&mut ctx, bet_amount);
        self.game = ctx.game;
        self.player_wallet = ctx.player_lamports;
        r
    }

    /// Runs FlipCoin on the table's game against the injected slot.
    /// Conserves the table's total: the escrow debit lands, split or
    /// whole, in the player's wallet and the house vault.
    pub fn run_flip_coin(&mut self, slot: u64) -> (r: Result<(), CustomError>)
        requires
            old(self).wf(),
            old(self).house is Some,
            old(self).game is Some,
        ensures
            final(self).wf(),
            final(self).total() == old(self).total(),
            r is Ok <==> (!old(self).game.unwrap().settled && old(self).game.unwrap().lamports
                >= escrow_debit_of(
                outcome_of_slot(slot),
                old(self).game.unwrap().bet_amount as int,
                old(self).house.unwrap().fee as int,
            )),
            old(self).game.unwrap().settled ==> r == Err::<(), CustomError>(
                CustomError::GameAlreadySettled,
            ),
            r is Err ==> *final(self) == *old(self),
            r is Ok ==> final(self).game is Some && final(self).game.unwrap().settled && final(self).game.unwrap().won == outcome_of_slot(slot),
            r is Ok ==> final(self).player_wallet == old(self).player_wallet + player_credit_of(
                outcome_of_slot(slot),
                old(self).game.unwrap().bet_amount as int,
                old(self).house.unwrap().fee as int,
            ),
            r is Ok ==> final(self).house.unwrap().lamports == old(self).house.unwrap().lamports
                + house_credit_of(
                outcome_of_slot(slot),
                old(self).game.unwrap().bet_amount as int,
                old(self).house.unwrap().fee as int,
            ),
            final(self).authority_wallet == old(self).authority_wallet,
            final(self).house is Some,
            final(self).game is Some,
            final(self).game.unwrap().player == old(self).game.unwrap().player,
            final(self).game.unwrap().bet_amount == old(self).game.unwrap().bet_amount,
            final(self).house.unwrap().fee == old(self).house.unwrap().fee,
            final(self).house.unwrap().authority == old(self).house.unwrap().authority,
            final(self).player == old(self).player,
            final(self).authority == old(self).authority,
    {
        let game = self.game.unwrap();
        let house = self.house.unwrap();
        let (game_address, _gb) = derive_game_address(self.player);
        let (house_address, _hb) = derive_house_address();
        proof {
            lemma_fee_bounds(game.bet_amount as int, house.fee as int);
            assert(game.bet_amount * house.fee <= 100 * game.bet_amount) by (nonlinear_arith)
                requires
                    house.fee <= 100,
                    0 <= game.bet_amount,
            ;
        }
        let mut ctx = FlipCoin {
            game,
            game_address,
            house,
            house_address,
            player_lamports: self.player_wallet,
        };
        let r = flip_coin(&mut ctx, slot);
        self.game = Some(ctx.game);
        self.house = Some(ctx.house);
        self.player_wallet = ctx.player_lamports;
        r
    }

    /// Runs Withdraw for an authenticated caller. Only the stored
    /// authority can drain the vault, and only down to zero; the table's
    /// total is conserved either way.
    pub fn run_withdraw(&mut self, caller: Pubkey, amount: u64) -> (r: Result<(), CustomError>)
        requires
            old(self).wf(),
            old(self).house is Some,
        ensures
            final(self).wf(),
            final(self).total() == old(self).total(),
            r is Ok <==> (caller == old(self).authority && amount <= old(self).house.unwrap().lamports),
            caller != old(self).authority ==> r == Err::<(), CustomError>(
                CustomError::UnauthorizedWithdrawal,
            ),
            r is Err ==> *final(self) == *old(self),
            r is Ok ==> final(self).house.unwrap().lamports == old(self).house.unwrap().lamports
                - amount && final(self).authority_wallet == old(self).authority_wallet + amount,
            final(self).game == old(self).game,
            final(self).player_wallet == old(self).player_wallet,
            final(self).house is Some,
            final(self).house.unwrap().fee == old(self).house.unwrap().fee,
            final(self).house.unwrap().authority == old(self).house.unwrap().authority,
            final(self).player == old(self).player,
            final(self).authority == old(self).authority,
    {
        let house = self.house.unwrap();
        let (house_address, _bump) = derive_house_address();
        let wallet = if caller == self.authority {
            self.authority_wallet
        } else {
            0
        };
        let mut ctx = Withdraw { house, house_address, authority: caller, authority_lamports: wallet };
        let r = withdraw(&mut ctx, amount);
        self.house = Some(ctx.house);
        if caller == self.authority {
            self.authority_wallet = ctx.authority_lamports;
        }
        r
    }
}

} // verus!
