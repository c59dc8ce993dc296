//! Identities and deterministic address derivation.
//!
//! Derived accounts (the house vault and each player's game escrow) have no
//! private key: their addresses are pure functions of a namespace tag plus
//! the owning identities, so only this program's logic can authorize debits
//! from them. Derivation is modeled as a content-addressed key, not as key
//! generation: the derived address *is* the namespace applied to its owners,
//! which makes reproducibility and collision-freedom structural.

use vstd::prelude::*;

verus! {

/// An authenticated identity on the ledger (a caller, an authority, a player).
#[derive(Clone, Copy, PartialEq, Eq, Structural, Debug)]
pub struct Pubkey {
    pub id: u64,
}

/// The address of an account: either an ordinary wallet controlled by the
/// identity's own key, or a derived program account for which no private
/// key exists.
#[derive(Clone, Copy, PartialEq, Eq, Structural, Debug)]
pub enum Address {
    /// A keypair-controlled account belonging to the named identity.
    Wallet(Pubkey),
    /// The house vault, derived from the namespace tag alone.
    HousePda,
    /// A player's game escrow, derived from the namespace tag plus the
    /// player's identity; one per player.
    GamePda(Pubkey),
}

/// The disambiguation value stored alongside a derived account. In this
/// content-addressed model no collision-avoidance scan is needed, so the
/// canonical first candidate is always the one chosen.
pub const CANONICAL_BUMP: u8 = 255;

/// Derives the house vault's address and bump. Reproducible: the result is
/// a pure function of the (implicit) namespace tag.
pub fn derive_house_address() -> (r: (Address, u8))
    ensures
        r.0 == Address::HousePda,
        r.1 == CANONICAL_BUMP,
{
    (Address::HousePda, CANONICAL_BUMP)
}

/// Derives the game escrow address and bump for one player. Reproducible,
/// and distinct players get distinct addresses by construction.
pub fn derive_game_address(player: Pubkey) -> (r: (Address, u8))
    ensures
        r.0 == Address::GamePda(player),
        r.1 == CANONICAL_BUMP,
{
    (Address::GamePda(player), CANONICAL_BUMP)
}

} // verus!
