use coinflip::errors::CustomError;
use coinflip::keys::Pubkey;
use coinflip::ledger::Ledger;

const PLAYER: Pubkey = Pubkey { id: 3 };
const AUTHORITY: Pubkey = Pubkey { id: 1 };
const EVEN_SLOT: u64 = 44;
const ODD_SLOT: u64 = 45;

fn funded_table() -> Ledger {
    let mut table = Ledger::new(PLAYER, AUTHORITY, 10_000, 5_000);
    assert_eq!(table.run_initialize(5), Ok(()));
    assert!(table.bankroll(2_000));
    table
}

fn total_of(table: &Ledger) -> u64 {
    table.player_wallet + table.authority_wallet
        + table.house.map(|h| h.lamports).unwrap_or(0)
        + table.game.map(|g| g.lamports).unwrap_or(0)
}

#[test]
fn session_win_moves_every_balance_at_once() {
    let mut table = funded_table();
    assert_eq!(table.run_place_bet(1_000), Ok(()));
    assert_eq!(table.player_wallet, 9_000);
    assert!(table.fund_escrow(1_000));
    assert_eq!(table.game.unwrap().lamports, 2_000);
    assert_eq!(table.run_flip_coin(EVEN_SLOT), Ok(()));
    assert_eq!(table.player_wallet, 9_000 + 1_950);
    assert_eq!(table.house.unwrap().lamports, 1_000 + 50);
    assert_eq!(table.game.unwrap().lamports, 0);
    assert!(table.game.unwrap().won);
    assert_eq!(total_of(&table), 15_000);
}

#[test]
fn session_loss_credits_the_house() {
    let mut table = funded_table();
    assert_eq!(table.run_place_bet(1_000), Ok(()));
    assert_eq!(table.run_flip_coin(ODD_SLOT), Ok(()));
    assert_eq!(table.player_wallet, 9_000);
    assert_eq!(table.house.unwrap().lamports, 2_000 + 1_000);
    assert_eq!(table.game.unwrap().lamports, 0);
    assert!(!table.game.unwrap().won);
    assert_eq!(total_of(&table), 15_000);
}

#[test]
fn session_total_is_conserved_by_every_instruction() {
    let mut table = funded_table();
    assert_eq!(total_of(&table), 15_000);
    assert_eq!(table.run_place_bet(700), Ok(()));
    assert_eq!(total_of(&table), 15_000);
    assert!(table.fund_escrow(700));
    assert_eq!(total_of(&table), 15_000);
    assert_eq!(table.run_flip_coin(EVEN_SLOT), Ok(()));
    assert_eq!(total_of(&table), 15_000);
    assert_eq!(table.run_withdraw(AUTHORITY, 100), Ok(()));
    assert_eq!(total_of(&table), 15_000);
}

#[test]
fn session_second_settlement_changes_nothing() {
    let mut table = funded_table();
    assert_eq!(table.run_place_bet(1_000), Ok(()));
    assert_eq!(table.run_flip_coin(ODD_SLOT), Ok(()));
    let wallets = (table.player_wallet, table.authority_wallet);
    let balances = (table.house.unwrap().lamports, table.game.unwrap().lamports);
    assert_eq!(table.run_flip_coin(EVEN_SLOT), Err(CustomError::GameAlreadySettled));
    assert_eq!((table.player_wallet, table.authority_wallet), wallets);
    assert_eq!((table.house.unwrap().lamports, table.game.unwrap().lamports), balances);
}

#[test]
fn session_second_initialize_keeps_fee() {
    let mut table = funded_table();
    assert_eq!(table.run_initialize(42), Err(CustomError::AccountAlreadyExists));
    assert_eq!(table.house.unwrap().fee, 5);
}

#[test]
fn session_withdraw_is_authority_gated() {
    let mut table = funded_table();
    assert_eq!(table.run_withdraw(PLAYER, 10), Err(CustomError::UnauthorizedWithdrawal));
    assert_eq!(table.house.unwrap().lamports, 2_000);
    assert_eq!(table.run_withdraw(AUTHORITY, 2_001), Err(CustomError::InsufficientFunds));
    assert_eq!(table.house.unwrap().lamports, 2_000);
    assert_eq!(table.run_withdraw(AUTHORITY, 2_000), Ok(()));
    assert_eq!(table.house.unwrap().lamports, 0);
    assert_eq!(table.authority_wallet, 5_000);
}

#[test]
fn session_underfunded_win_is_rejected_whole() {
    let mut table = funded_table();
    assert_eq!(table.run_place_bet(1_000), Ok(()));
    // No house-to-escrow funding step: the escrow holds only the wager,
    // and a winning settlement needs double that.
    assert_eq!(
        table.run_flip_coin(EVEN_SLOT),
        Err(CustomError::InsufficientEscrowBalance)
    );
    assert_eq!(table.player_wallet, 9_000);
    assert_eq!(table.game.unwrap().lamports, 1_000);
    assert!(!table.game.unwrap().settled);
}
