//! The error taxonomy: every instruction aborts with a distinct, stable tag
//! and no partial effect.

use vstd::prelude::*;

verus! {

/// Why an instruction was rejected. Validation errors are raised before any
/// state is read, state and authorization errors after state is read but
/// before any mutation, and resource errors by an explicit balance check
/// before any debit.
#[derive(Clone, Copy, PartialEq, Eq, Structural, Debug)]
pub enum CustomError {
    /// The requested house fee rate lies outside 0..=100.
    InvalidHouseFee,
    /// A wager of zero was requested.
    InvalidBetAmount,
    /// The game was already settled; settlement is terminal.
    GameAlreadySettled,
    /// The withdrawal caller is not the house authority.
    UnauthorizedWithdrawal,
    /// The house balance does not cover the requested withdrawal.
    InsufficientFunds,
    /// The game escrow does not hold enough to cover the settlement debit.
    InsufficientEscrowBalance,
    /// The player's wallet does not cover the requested wager.
    InsufficientPlayerBalance,
    /// The account to be created already exists at its derived address.
    AccountAlreadyExists,
    /// A supplied account does not match its recomputed derived identity.
    AddressMismatch,
}

/// The four classes of rejection, so a caller can tell "try again with
/// different input" from "this is already done" from "you are not
/// allowed" from "try a smaller amount".
#[derive(Clone, Copy, PartialEq, Eq, Structural, Debug)]
pub enum ErrorKind {
    /// A bad input, rejected before any state is read.
    Validation,
    /// A transition the account's current state forbids.
    State,
    /// A caller the stored authority does not admit, or a substituted
    /// account.
    Authorization,
    /// A balance too small to fund the requested movement.
    Resource,
}

impl CustomError {
    /// The class a tag belongs to.
    pub open spec fn spec_kind(self) -> ErrorKind {
        match self {
            CustomError::InvalidHouseFee => ErrorKind::Validation,
            CustomError::InvalidBetAmount => ErrorKind::Validation,
            CustomError::GameAlreadySettled => ErrorKind::State,
            CustomError::UnauthorizedWithdrawal => ErrorKind::Authorization,
            CustomError::InsufficientFunds => ErrorKind::Resource,
            CustomError::InsufficientEscrowBalance => ErrorKind::Resource,
            CustomError::InsufficientPlayerBalance => ErrorKind::Resource,
            CustomError::AccountAlreadyExists => ErrorKind::State,
            CustomError::AddressMismatch => ErrorKind::Authorization,
        }
    }

    /// Classifies this rejection.
    pub fn kind(&self) -> (r: ErrorKind)
        ensures
            r == self.spec_kind(),
    {
        match self {
            CustomError::InvalidHouseFee => ErrorKind::Validation,
            CustomError::InvalidBetAmount => ErrorKind::Validation,
            CustomError::GameAlreadySettled => ErrorKind::State,
            CustomError::UnauthorizedWithdrawal => ErrorKind::Authorization,
            CustomError::InsufficientFunds => ErrorKind::Resource,
            CustomError::InsufficientEscrowBalance => ErrorKind::Resource,
            CustomError::InsufficientPlayerBalance => ErrorKind::Resource,
            CustomError::AccountAlreadyExists => ErrorKind::State,
            CustomError::AddressMismatch => ErrorKind::Authorization,
        }
    }
}

} // verus!
