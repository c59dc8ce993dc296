//! The settlement arithmetic: the house fee, the winning payout, and the
//! per-outcome fund movements, with the conservation laws that relate them.

use vstd::prelude::*;

verus! {

/// The house's cut of a settled wager: `bet * rate / 100`, with integer
/// division truncating.
pub open spec fn fee_of(bet: int, rate: int) -> int {
    bet * rate / 100
}

/// What a winning player is paid: double the wager less the house fee.
pub open spec fn payout_of(bet: int, rate: int) -> int {
    2 * bet - fee_of(bet, rate)
}

/// The total debited from the game escrow at settlement.
pub open spec fn escrow_debit_of(won: bool, bet: int, rate: int) -> int {
    if won {
        payout_of(bet, rate) + fee_of(bet, rate)
    } else {
        bet
    }
}

/// The amount credited to the player at settlement.
pub open spec fn player_credit_of(won: bool, bet: int, rate: int) -> int {
    if won {
        payout_of(bet, rate)
    } else {
        0
    }
}

/// The amount credited to the house at settlement.
pub open spec fn house_credit_of(won: bool, bet: int, rate: int) -> int {
    if won {
        fee_of(bet, rate)
    } else {
        bet
    }
}

/// The fee is between zero and the full wager whenever the rate is a
/// percentage.
pub proof fn lemma_fee_bounds(bet: int, rate: int)
    requires
        0 <= bet,
        0 <= rate <= 100,
    ensures
        0 <= fee_of(bet, rate) <= bet,
{
    assert(0 <= bet * rate / 100 <= bet) by (nonlinear_arith)
        requires
            0 <= bet,
            0 <= rate <= 100,
    ;
}

/// After a winning settlement the fee and the payout together account for
/// exactly twice the wager, and the fee is the truncating percentage cut.
pub proof fn lemma_win_settlement_totals(bet: int, rate: int)
    requires
        0 < bet,
        0 <= rate <= 100,
    ensures
        fee_of(bet, rate) + payout_of(bet, rate) == 2 * bet,
        fee_of(bet, rate) == bet * rate / 100,
        0 <= player_credit_of(true, bet, rate) <= 2 * bet,
        0 <= house_credit_of(true, bet, rate) <= bet,
{
    lemma_fee_bounds(bet, rate);
}

/// Balance conservation: whatever the outcome, the escrow debit equals the
/// player credit plus the house credit.
pub proof fn lemma_settlement_conserves(won: bool, bet: int, rate: int)
    ensures
        escrow_debit_of(won, bet, rate) == player_credit_of(won, bet, rate) + house_credit_of(
            won,
            bet,
            rate,
        ),
{
}

/// Computes the house fee for one wager.
pub fn fee_amount(bet_amount: u64, fee: u8) -> (r: u64)
    requires
        fee <= 100,
        bet_amount * fee <= u64::MAX,
    ensures
        r == fee_of(bet_amount as int, fee as int),
        r <= bet_amount,
{
    proof {
        lemma_fee_bounds(bet_amount as int, fee as int);
    }
    (bet_amount * (fee as u64)) / 100
}

/// Computes the winning payout for one wager.
pub fn payout_amount(bet_amount: u64, fee: u8) -> (r: u64)
    requires
        fee <= 100,
        bet_amount * fee <= u64::MAX,
        2 * bet_amount <= u64::MAX,
    ensures
        r == payout_of(bet_amount as int, fee as int),
        bet_amount <= r <= 2 * bet_amount,
{
    let f = fee_amount(bet_amount, fee);
    2 * bet_amount - f
}

} // verus!
