use coinflip::instant;
use coinflip::keys::Pubkey;
use coinflip::tally;

#[test]
fn tally_initialize_zeroes_counters() {
    let state = tally::initialize(Pubkey { id: 9 });
    assert_eq!(state.authority, Pubkey { id: 9 });
    assert_eq!(state.total_flips, 0);
    assert_eq!(state.total_wins, 0);
    assert_eq!(state.total_losses, 0);
}

#[test]
fn tally_counts_a_win() {
    let mut state = tally::initialize(Pubkey { id: 9 });
    // 6 ^ 0b100 = 2, even: the outcome bit is true.
    let r = tally::flip_coin(&mut state, Pubkey { id: 3 }, true, 6, 4);
    assert!(r.result);
    assert!(r.won);
    assert_eq!(r.player, Pubkey { id: 3 });
    assert_eq!(state.total_flips, 1);
    assert_eq!(state.total_wins, 1);
    assert_eq!(state.total_losses, 0);
}

#[test]
fn tally_counts_a_loss() {
    let mut state = tally::initialize(Pubkey { id: 9 });
    // 6 ^ 0b101 = 3, odd: the outcome bit is false.
    let r = tally::flip_coin(&mut state, Pubkey { id: 3 }, true, 6, 5);
    assert!(!r.result);
    assert!(!r.won);
    assert_eq!(state.total_flips, 1);
    assert_eq!(state.total_wins, 0);
    assert_eq!(state.total_losses, 1);
}

#[test]
fn tally_accounts_for_every_flip() {
    let mut state = tally::initialize(Pubkey { id: 9 });
    for ts in 0..8u32 {
        tally::flip_coin(&mut state, Pubkey { id: 3 }, false, ts, 0xab);
    }
    assert_eq!(state.total_flips, 8);
    assert_eq!(state.total_wins + state.total_losses, 8);
}

#[test]
fn instant_win_pays_double_from_game_account() {
    let mut ctx = instant::PlaceBet {
        game: instant::initialize(Pubkey { id: 9 }),
        game_lamports: 500,
        player_lamports: 300,
    };
    // Even slot: the outcome bit is true, so guessing true wins.
    assert_eq!(instant::place_bet(&mut ctx, 200, true, 10), Ok(()));
    assert_eq!(ctx.player_lamports, 500);
    assert_eq!(ctx.game_lamports, 300);
    assert_eq!(ctx.game.total_flips, 1);
    assert_eq!(ctx.game.total_wins, 1);
}

#[test]
fn instant_loss_keeps_wager_in_game_account() {
    let mut ctx = instant::PlaceBet {
        game: instant::initialize(Pubkey { id: 9 }),
        game_lamports: 500,
        player_lamports: 300,
    };
    assert_eq!(instant::place_bet(&mut ctx, 200, false, 10), Ok(()));
    assert_eq!(ctx.player_lamports, 100);
    assert_eq!(ctx.game_lamports, 700);
    assert_eq!(ctx.game.total_flips, 1);
    assert_eq!(ctx.game.total_wins, 0);
}

#[test]
fn instant_rejects_zero_wager() {
    let before = instant::PlaceBet {
        game: instant::initialize(Pubkey { id: 9 }),
        game_lamports: 500,
        player_lamports: 300,
    };
    let mut ctx = before.clone();
    assert_eq!(
        instant::place_bet(&mut ctx, 0, true, 10),
        Err(instant::CustomError::InvalidBetAmount)
    );
    assert_eq!(ctx, before);
}

#[test]
fn instant_rejects_unpayable_win() {
    let before = instant::PlaceBet {
        game: instant::initialize(Pubkey { id: 9 }),
        game_lamports: 100,
        player_lamports: 300,
    };
    let mut ctx = before.clone();
    assert_eq!(
        instant::place_bet(&mut ctx, 200, true, 10),
        Err(instant::CustomError::InsufficientGameBalance)
    );
    assert_eq!(ctx, before);
}

#[test]
fn instant_rejects_insolvent_player() {
    let before = instant::PlaceBet {
        game: instant::initialize(Pubkey { id: 9 }),
        game_lamports: 500,
        player_lamports: 100,
    };
    let mut ctx = before.clone();
    assert_eq!(
        instant::place_bet(&mut ctx, 200, false, 10),
        Err(instant::CustomError::InsufficientPlayerBalance)
    );
    assert_eq!(ctx, before);
}

#[test]
fn instant_close_game_drains_to_authority() {
    let mut ctx = instant::CloseGame { game_lamports: 700, authority_lamports: 25 };
    assert_eq!(instant::close_game(&mut ctx), Ok(()));
    assert_eq!(ctx.game_lamports, 0);
    assert_eq!(ctx.authority_lamports, 725);
}
