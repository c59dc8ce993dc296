//! The two persisted entities: the house account and a player's game
//! account. Both are fixed-size records created once; the balance each
//! account holds on the ledger is carried here as a plain `lamports` field.

use vstd::prelude::*;

use crate::keys::Pubkey;

verus! {

/// The house: its controlling authority and fee rate, both set once at
/// creation and immutable thereafter, plus the stored derivation bump and
/// the vault's current balance.
#[derive(Clone, Copy, PartialEq, Eq, Structural, Debug)]
pub struct House {
    /// The identity permitted to withdraw house funds.
    pub authority: Pubkey,
    /// The house's cut of each settled wager, a percentage in 0..=100.
    pub fee: u8,
    /// The disambiguation value of the derived house address, stored so
    /// later instructions can re-verify the address without re-searching.
    pub bump: u8,
    /// The vault's current balance.
    pub lamports: u64,
}

impl House {
    /// The lifetime invariant of a house account.
    pub open spec fn wf(self) -> bool {
        self.fee <= 100
    }

    /// The identity permitted to withdraw house funds.
    pub fn authority(&self) -> (r: Pubkey)
        ensures
            r == self.authority,
    {
        self.authority
    }

    /// The house's cut of each settled wager, in percent.
    pub fn fee(&self) -> (r: u8)
        ensures
            r == self.fee,
    {
        self.fee
    }
}

/// One player's open wager: the escrowed amount, the settlement flags, the
/// stored derivation bump, and the escrow's current balance.
#[derive(Clone, Copy, PartialEq, Eq, Structural, Debug)]
pub struct Game {
    /// The wagering party. Set at creation, immutable.
    pub player: Pubkey,
    /// The positive amount escrowed. Set at creation, immutable.
    pub bet_amount: u64,
    /// False at creation, set true exactly once by settlement. Terminal.
    pub settled: bool,
    /// Whether the player won; meaningful only once `settled` is true.
    pub won: bool,
    /// The disambiguation value of the derived game address.
    pub bump: u8,
    /// The escrow's current balance.
    pub lamports: u64,
}

impl Game {
    /// The lifetime invariant of a game account.
    pub open spec fn wf(self) -> bool {
        self.bet_amount > 0
    }

    /// The wagering party.
    pub fn player(&self) -> (r: Pubkey)
        ensures
            r == self.player,
    {
        self.player
    }

    /// Whether the wager has been settled.
    pub fn is_settled(&self) -> (r: bool)
        ensures
            r == self.settled,
    {
        self.settled
    }
}

} // verus!
