use fumo::mines::controls::{controls, diamonds_until_forced, summary, tile_button};
use fumo::mines::controls::{RoundSummary, TileButton, TileFace, TileStyle};
use fumo::mines::game_state::{generate_tiles, MinesGameState, RevealOutcome};
use fumo::mines::session::{check_wager, parse_target, parse_tile_index, start};
use fumo::mines::session::{MinesOutcome, MinesSession, MinesTarget, WagerError};
use fumo::mines::tile::Tile;
use fumo::mines::wager::{build_wager_suggestions, clean_input, fallback_wager, wager_choices};
use fumo::mines::{BOARD_COLUMNS, BOARD_ROWS, TOTAL_BOMBS};
use fumo::session::{LedgerAction, OutcomeClass};
use rand::rngs::StdRng;
use rand::SeedableRng;

/// A board of sixteen tiles with bombs on the first five.
fn board() -> Vec<Tile> {
    (0..16).map(|i| Tile::new(i < 5)).collect()
}

fn round(wager: i64) -> MinesGameState {
    MinesGameState::from_parts(wager, board(), 42)
}

fn session(wager: i64) -> MinesSession {
    MinesSession::open(round(wager), 7)
}

fn reveal_safe(session: &mut MinesSession, count: usize) {
    for index in 5..5 + count {
        session.select(MinesTarget::Tile(index));
    }
}

#[test]
fn new_tile_is_hidden() {
    assert_eq!(Tile::new(true), Tile { is_bomb: true, revealed: false });
    assert_eq!(Tile::new(false), Tile { is_bomb: false, revealed: false });
}

#[test]
fn fresh_round_is_open_and_empty() {
    let state = round(100);
    assert_eq!(state.custom_id_prefix, "mines_42_");
    assert_eq!(state.revealed_safe, 0);
    assert_eq!(state.wager, 100);
    assert!(state.status_text.is_none());
    assert!(!state.is_finished());
    assert!(!state.can_cash_out());
    assert_eq!(state.projected_payout(), 0);
    assert_eq!(state.remaining_for_cashout(), 3);
}

#[test]
fn generated_board_has_sixteen_tiles_and_five_bombs() {
    for seed in 0..20u64 {
        let mut rng = StdRng::seed_from_u64(seed);
        let tiles = generate_tiles(&mut rng);
        assert_eq!(tiles.len(), BOARD_COLUMNS * BOARD_ROWS);
        assert_eq!(tiles.iter().filter(|tile| tile.is_bomb).count(), TOTAL_BOMBS);
        assert!(tiles.iter().all(|tile| !tile.revealed));
    }
}

#[test]
fn generated_boards_differ_between_seeds() {
    let layouts: Vec<Vec<bool>> = (0..8u64)
        .map(|seed| {
            let mut rng = StdRng::seed_from_u64(seed);
            generate_tiles(&mut rng).iter().map(|tile| tile.is_bomb).collect()
        })
        .collect();
    let sorted: Vec<bool> = (0..16).map(|i| i < 5).collect();
    assert!(layouts.iter().any(|layout| *layout != sorted));
    assert!(layouts.iter().any(|layout| *layout != layouts[0]));
}

#[test]
fn new_round_has_a_prefix_with_a_nonce() {
    let mut rng = StdRng::seed_from_u64(1);
    let state = MinesGameState::new(50, &mut rng);
    assert!(state.custom_id_prefix.starts_with("mines_"));
    assert!(state.custom_id_prefix.ends_with('_'));
    let nonce = &state.custom_id_prefix["mines_".len()..state.custom_id_prefix.len() - 1];
    assert!(nonce.parse::<u64>().is_ok());
    assert_eq!(state.tiles.len(), 16);
}

#[test]
fn each_safe_reveal_counts_one_diamond() {
    let mut state = round(100);
    for (found, index) in (5..16).enumerate() {
        assert_eq!(state.reveal_tile(index), Some(RevealOutcome::Diamond));
        assert_eq!(state.revealed_safe, found + 1);
        assert!(state.tiles[index].revealed);
    }
}

#[test]
fn reveal_reports_bombs_repeats_and_misses() {
    let mut state = round(100);
    assert_eq!(state.reveal_tile(0), Some(RevealOutcome::Bomb));
    assert_eq!(state.revealed_safe, 0);
    assert_eq!(state.reveal_tile(0), Some(RevealOutcome::AlreadyOpened));
    assert_eq!(state.reveal_tile(16), None);
    assert_eq!(state.reveal_tile(usize::MAX), None);
    assert_eq!(state.reveal_tile(5), Some(RevealOutcome::Diamond));
    assert_eq!(state.reveal_tile(5), Some(RevealOutcome::AlreadyOpened));
    assert_eq!(state.revealed_safe, 1);
}

#[test]
fn reveal_all_opens_every_tile_and_keeps_the_count() {
    let mut state = round(100);
    state.reveal_tile(5);
    state.reveal_all();
    assert!(state.tiles.iter().all(|tile| tile.revealed));
    assert_eq!(state.tiles.iter().filter(|tile| tile.is_bomb).count(), 5);
    assert_eq!(state.revealed_safe, 1);
}

#[test]
fn multiplier_grows_by_a_step_up_to_the_cap() {
    let mut state = round(100);
    assert_eq!(state.current_multiplier_hundredths(), 100);
    let expected = [118, 136, 154, 172, 190, 208, 226, 244, 262, 280, 298];
    for (step, index) in (5..16).enumerate() {
        state.reveal_tile(index);
        assert_eq!(state.current_multiplier_hundredths(), expected[step]);
    }
    state.revealed_safe = 17;
    assert_eq!(state.current_multiplier_hundredths(), 406);
    state.revealed_safe = 18;
    assert_eq!(state.current_multiplier_hundredths(), 420);
    state.revealed_safe = 1000;
    assert_eq!(state.current_multiplier_hundredths(), 420);
}

#[test]
fn payout_is_the_wager_times_the_multiplier_rounded_down() {
    let mut state = round(50);
    state.reveal_tile(5);
    assert_eq!(state.projected_payout(), 59);
    state.reveal_tile(6);
    assert_eq!(state.projected_payout(), 68);
    state.reveal_tile(7);
    assert_eq!(state.projected_payout(), 77);
    let mut odd = round(51);
    odd.reveal_tile(5);
    assert_eq!(odd.projected_payout(), 60);
}

#[test]
fn payout_never_falls_and_never_passes_the_cap() {
    for wager in [50i64, 51, 99, 1_000, 49_999, 50_000] {
        let mut state = MinesGameState::from_parts(wager, board(), 1);
        let mut last = state.projected_payout();
        for index in 5..16 {
            state.reveal_tile(index);
            let payout = state.projected_payout();
            assert!(payout >= last);
            assert!(payout * 100 <= wager * 420);
            last = payout;
        }
        state.revealed_safe = 500;
        assert_eq!(state.projected_payout(), wager * 420 / 100);
    }
}

#[test]
fn cash_out_opens_at_three_diamonds() {
    let mut state = round(100);
    state.reveal_tile(5);
    state.reveal_tile(6);
    assert!(!state.can_cash_out());
    assert_eq!(state.remaining_for_cashout(), 1);
    state.reveal_tile(7);
    assert!(state.can_cash_out());
    assert_eq!(state.remaining_for_cashout(), 0);
    assert!(!state.force_cashout_reached());
}

#[test]
fn set_status_replaces_the_text() {
    let mut state = round(100);
    state.set_status(String::from("first"));
    state.set_status(String::from("second"));
    assert_eq!(state.status_text.as_deref(), Some("second"));
}

#[test]
fn wager_is_checked_against_bounds_and_balance() {
    assert_eq!(check_wager(49, 1_000), Err(WagerError::BelowMinimum));
    assert_eq!(check_wager(-5, 1_000), Err(WagerError::BelowMinimum));
    assert_eq!(check_wager(50_001, 100_000), Err(WagerError::AboveMaximum));
    assert_eq!(check_wager(500, 499), Err(WagerError::InsufficientFunds));
    assert_eq!(check_wager(50, 50), Ok(()));
    assert_eq!(check_wager(50_000, 50_000), Ok(()));
    assert_eq!(check_wager(49, 0), Err(WagerError::BelowMinimum));
}

#[test]
fn tile_index_is_read_behind_the_prefix() {
    assert_eq!(parse_tile_index("mines_42_7", "mines_42_"), Some(7));
    assert_eq!(parse_tile_index("mines_42_15", "mines_42_"), Some(15));
    assert_eq!(parse_tile_index("mines_42_007", "mines_42_"), Some(7));
    assert_eq!(parse_tile_index("mines_42_+3", "mines_42_"), Some(3));
    assert_eq!(parse_tile_index("mines_42_", "mines_42_"), None);
    assert_eq!(parse_tile_index("mines_42_+", "mines_42_"), None);
    assert_eq!(parse_tile_index("mines_42_-1", "mines_42_"), None);
    assert_eq!(parse_tile_index("mines_42_1x", "mines_42_"), None);
    assert_eq!(parse_tile_index("mines_42_ 1", "mines_42_"), None);
    assert_eq!(parse_tile_index("mines_43_1", "mines_42_"), None);
    assert_eq!(parse_tile_index("mines", "mines_42_"), None);
    assert_eq!(parse_tile_index("mines_42_cashout", "mines_42_"), None);
    assert_eq!(parse_tile_index("7", ""), Some(7));
}

#[test]
fn tile_index_that_does_not_fit_is_turned_down() {
    let fits = format!("p{}", usize::MAX);
    assert_eq!(parse_tile_index(&fits, "p"), Some(usize::MAX));
    let too_big = format!("p{}0", usize::MAX);
    assert_eq!(parse_tile_index(&too_big, "p"), None);
    assert_eq!(parse_tile_index("p99999999999999999999999999999999", "p"), None);
    assert_eq!(parse_tile_index("p18446744073709551616", "p"), "18446744073709551616".parse().ok());
}

#[test]
fn targets_are_told_apart() {
    assert_eq!(parse_target("mines_42_3", "mines_42_"), Some(MinesTarget::Tile(3)));
    assert_eq!(parse_target("mines_42_cashout", "mines_42_"), Some(MinesTarget::CashOut));
    assert_eq!(parse_target("mines_42_giveup", "mines_42_"), Some(MinesTarget::GiveUp));
    assert_eq!(parse_target("mines_42_other", "mines_42_"), None);
    assert_eq!(parse_target("cashout", "mines_42_"), None);
    assert_eq!(parse_target("", "mines_42_"), None);
}

#[test]
fn diamond_is_progress() {
    let mut session = session(100);
    let outcome = session.select(MinesTarget::Tile(5));
    assert_eq!(outcome, MinesOutcome::Diamond { found: 1, cash_out_open: false, needed: 2 });
    assert_eq!(outcome.class(), OutcomeClass::Progress);
    assert_eq!(outcome.ledger_action(), LedgerAction::Nothing);
    session.select(MinesTarget::Tile(6));
    let third = session.select(MinesTarget::Tile(7));
    assert_eq!(third, MinesOutcome::Diamond { found: 3, cash_out_open: true, needed: 0 });
    assert!(!session.is_finished());
}

#[test]
fn bomb_busts_the_round_and_costs_the_wager() {
    let mut session = session(100);
    session.select(MinesTarget::Tile(5));
    let outcome = session.select(MinesTarget::Tile(0));
    assert_eq!(outcome, MinesOutcome::Bust { lost: 100 });
    assert_eq!(outcome.class(), OutcomeClass::Settlement);
    assert_eq!(outcome.ledger_action(), LedgerAction::Nothing);
    assert!(session.is_finished());
    assert!(session.state.busted);
    assert!(session.state.tiles.iter().all(|tile| tile.revealed));
    assert!(!session.state.refunded);
}

#[test]
fn rejected_clicks_change_nothing() {
    let mut session = session(100);
    session.select(MinesTarget::Tile(5));
    let before = (session.state.tiles.clone(), session.state.revealed_safe);
    let again = session.select(MinesTarget::Tile(5));
    assert_eq!(again, MinesOutcome::AlreadyOpened);
    assert_eq!(again.class(), OutcomeClass::Rejected);
    let off = session.select(MinesTarget::Tile(16));
    assert_eq!(off, MinesOutcome::OffBoard);
    assert_eq!(off.class(), OutcomeClass::Rejected);
    let locked = session.select(MinesTarget::CashOut);
    assert_eq!(locked, MinesOutcome::CashOutLocked { needed: 2 });
    assert_eq!(locked.class(), OutcomeClass::Rejected);
    assert_eq!((session.state.tiles.clone(), session.state.revealed_safe), before);
    assert!(!session.is_finished());
    assert_eq!(session.wager_transaction, Some(7));
}

#[test]
fn cash_out_pays_what_the_diamonds_earned() {
    let mut session = session(100);
    reveal_safe(&mut session, 4);
    let outcome = session.select(MinesTarget::CashOut);
    assert_eq!(outcome, MinesOutcome::CashedOut { payout: 172, forced: false });
    assert_eq!(outcome.class(), OutcomeClass::Settlement);
    assert_eq!(outcome.ledger_action(), LedgerAction::Credit { amount: 172 });
    assert!(session.is_finished());
    assert_eq!(session.state.cashed_out_amount, Some(172));
    assert!(session.state.tiles.iter().all(|tile| tile.revealed));
}

#[test]
fn ninth_diamond_forces_the_cash_out() {
    let mut session = session(100);
    reveal_safe(&mut session, 8);
    assert!(!session.is_finished());
    let outcome = session.select(MinesTarget::Tile(13));
    assert_eq!(outcome, MinesOutcome::CashedOut { payout: 262, forced: true });
    assert_eq!(outcome.ledger_action(), LedgerAction::Credit { amount: 262 });
    assert!(session.is_finished());
    assert_eq!(session.state.revealed_safe, 9);
}

#[test]
fn giving_up_early_refunds_the_wager() {
    let mut session = session(100);
    reveal_safe(&mut session, 2);
    let outcome = session.select(MinesTarget::GiveUp);
    assert_eq!(outcome, MinesOutcome::Refunded { amount: 100, transaction_id: 7 });
    assert_eq!(outcome.class(), OutcomeClass::Settlement);
    assert_eq!(outcome.ledger_action(), LedgerAction::Compensate { transaction_id: 7 });
    assert!(session.state.gave_up);
    assert!(session.state.refunded);
    assert_eq!(session.wager_transaction, None);
    assert!(session.is_finished());
}

#[test]
fn giving_up_late_forfeits_the_wager() {
    let mut session = session(100);
    reveal_safe(&mut session, 3);
    let outcome = session.select(MinesTarget::GiveUp);
    assert_eq!(outcome, MinesOutcome::Forfeited { lost: 100 });
    assert_eq!(outcome.class(), OutcomeClass::Settlement);
    assert_eq!(outcome.ledger_action(), LedgerAction::Nothing);
    assert!(session.state.gave_up);
    assert!(!session.state.refunded);
    assert_eq!(session.wager_transaction, Some(7));
}

#[test]
fn finished_round_turns_every_click_away() {
    let mut session = session(100);
    session.select(MinesTarget::Tile(0));
    let tiles = session.state.tiles.clone();
    for target in [
        MinesTarget::Tile(5),
        MinesTarget::Tile(0),
        MinesTarget::Tile(99),
        MinesTarget::CashOut,
        MinesTarget::GiveUp,
    ] {
        let outcome = session.select(target);
        assert_eq!(outcome, MinesOutcome::RoundOver);
        assert_eq!(outcome.class(), OutcomeClass::Rejected);
        assert_eq!(outcome.ledger_action(), LedgerAction::Nothing);
    }
    assert_eq!(session.state.tiles, tiles);
    assert!(session.state.busted);
    assert!(!session.state.gave_up);
    assert_eq!(session.state.cashed_out_amount, None);
    assert_eq!(session.state.revealed_safe, 0);
    assert_eq!(session.wager_transaction, Some(7));
}

#[test]
fn timeout_abandons_without_refund() {
    let mut session = session(100);
    reveal_safe(&mut session, 1);
    let outcome = session.timeout();
    assert_eq!(outcome, MinesOutcome::TimedOut);
    assert_eq!(outcome.class(), OutcomeClass::Settlement);
    assert_eq!(outcome.ledger_action(), LedgerAction::Nothing);
    assert!(session.state.gave_up);
    assert!(!session.state.refunded);
    assert!(session.is_finished());
    assert_eq!(session.timeout(), MinesOutcome::RoundOver);
}

#[test]
fn started_session_is_fresh() {
    let mut rng = StdRng::seed_from_u64(3);
    let session = start(500, 11, &mut rng);
    assert_eq!(session.wager_transaction, Some(11));
    assert_eq!(session.state.wager, 500);
    assert_eq!(session.state.revealed_safe, 0);
    assert!(!session.is_finished());
}

#[test]
fn open_round_shows_hidden_tiles() {
    let state = round(100);
    let shown = controls(&state);
    assert_eq!(shown.tiles.len(), 16);
    assert!(shown.tiles.iter().all(|button| {
        *button == TileButton { face: TileFace::Hidden, style: TileStyle::Plain, disabled: false }
    }));
    assert!(shown.cash_out_disabled);
    assert!(!shown.give_up_disabled);
    assert_eq!(summary(&state), RoundSummary::NothingFound);
    assert_eq!(diamonds_until_forced(&state), 9);
}

#[test]
fn finished_round_disables_every_control() {
    let mut session = session(100);
    reveal_safe(&mut session, 3);
    session.select(MinesTarget::CashOut);
    let shown = controls(&session.state);
    assert!(shown.tiles.iter().all(|button| button.disabled));
    assert!(shown.cash_out_disabled);
    assert!(shown.give_up_disabled);
    assert_eq!(summary(&session.state), RoundSummary::CashedOut { amount: 154 });
}

#[test]
fn tile_buttons_show_what_is_known() {
    let found = Tile { is_bomb: false, revealed: true };
    let hit = Tile { is_bomb: true, revealed: true };
    let safe = Tile::new(false);
    let bomb = Tile::new(true);
    assert_eq!(tile_button(found, false).face, TileFace::Diamond);
    assert_eq!(tile_button(found, false).style, TileStyle::Found);
    assert_eq!(tile_button(hit, false).style, TileStyle::Deadly);
    assert_eq!(tile_button(safe, true).face, TileFace::Diamond);
    assert_eq!(tile_button(safe, true).style, TileStyle::Plain);
    assert_eq!(tile_button(bomb, true).face, TileFace::Bomb);
    assert!(tile_button(bomb, true).disabled);
    assert!(!tile_button(bomb, false).disabled);
    assert_eq!(tile_button(bomb, false).face, TileFace::Hidden);
}

#[test]
fn summary_follows_the_round() {
    let mut session = session(100);
    reveal_safe(&mut session, 1);
    assert_eq!(summary(&session.state), RoundSummary::CashOutLocked { missing: 2 });
    reveal_safe(&mut session, 3);
    assert_eq!(summary(&session.state), RoundSummary::CashOutOpen { payout: 154 });
    assert_eq!(diamonds_until_forced(&session.state), 6);
    session.select(MinesTarget::GiveUp);
    assert_eq!(summary(&session.state), RoundSummary::Forfeited);
    let mut early = MinesSession::open(round(100), 1);
    early.select(MinesTarget::GiveUp);
    assert_eq!(summary(&early.state), RoundSummary::Refunded);
    let mut bust = MinesSession::open(round(100), 1);
    bust.select(MinesTarget::Tile(1));
    assert_eq!(summary(&bust.state), RoundSummary::Busted);
}

#[test]
fn suggestions_for_a_poor_player_are_the_minimum() {
    assert_eq!(build_wager_suggestions(0), vec![50]);
    assert_eq!(build_wager_suggestions(49), vec![50]);
    assert_eq!(build_wager_suggestions(-10), vec![50]);
}

#[test]
fn suggestions_rise_without_repeats() {
    assert_eq!(build_wager_suggestions(50), vec![50]);
    assert_eq!(build_wager_suggestions(1_000), vec![50, 200, 350, 500, 750, 1_000]);
    assert_eq!(
        build_wager_suggestions(1_000_000),
        vec![50, 10_000, 17_500, 25_000, 37_500, 50_000]
    );
    assert_eq!(build_wager_suggestions(100), vec![50, 75, 100]);
    assert_eq!(build_wager_suggestions(130), vec![50, 65, 98, 130]);
}

#[test]
fn typed_digits_narrow_the_choices() {
    assert_eq!(wager_choices(1_000, ""), vec![50, 200, 350, 500, 750, 1_000]);
    assert_eq!(wager_choices(1_000, "5"), vec![50, 500]);
    assert_eq!(wager_choices(1_000, "7 5"), vec![750]);
    assert_eq!(wager_choices(1_000, "abc"), vec![50, 200, 350, 500, 750, 1_000]);
    assert_eq!(wager_choices(1_000, "9"), vec![50]);
    assert_eq!(wager_choices(1_000, "900"), vec![900]);
    assert_eq!(wager_choices(1_000, "90000"), vec![50_000]);
    assert_eq!(wager_choices(1_000, "99999999999999999999"), vec![50]);
}

#[test]
fn fallback_reads_the_cleaned_digits() {
    assert_eq!(clean_input("1a2b3"), vec!['1', '2', '3']);
    assert_eq!(clean_input(" $ "), Vec::<char>::new());
    assert_eq!(fallback_wager(&vec![]), 50);
    assert_eq!(fallback_wager(&vec!['7']), 50);
    assert_eq!(fallback_wager(&vec!['7', '0']), 70);
    assert_eq!(fallback_wager(&vec!['0', '0', '9', '9', '9']), 999);
    assert_eq!(fallback_wager(&"9223372036854775807".chars().collect()), 50_000);
    assert_eq!(fallback_wager(&"9223372036854775808".chars().collect()), 50);
}
