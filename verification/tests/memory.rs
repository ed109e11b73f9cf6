use fumo::memory::controls::{board_looks, tile_look, TileLook};
use fumo::memory::game_mode::{Mode, Standing};
use fumo::memory::game_state::{generate_tiles, parse_index, EMOJI_POOL};
use fumo::memory::game_state::{MemoryGameState, SelectionResult};
use fumo::memory::player_state::PlayerState;
use fumo::memory::session::{is_finished, resume, select, MemoryOutcome};
use fumo::memory::tile::Tile;
use fumo::session::OutcomeClass;
use rand::rngs::StdRng;
use rand::SeedableRng;

const ALICE: u64 = 10;
const BOB: u64 = 20;
const CAROL: u64 = 30;

/// A board of three pairs: a b a c b c.
fn tiles() -> Vec<Tile> {
    ["a", "b", "a", "c", "b", "c"].into_iter().map(Tile::new).collect()
}

fn solo() -> MemoryGameState {
    MemoryGameState::from_parts(Mode::solo(ALICE), tiles(), 9)
}

fn versus() -> MemoryGameState {
    MemoryGameState::from_parts(Mode::versus(ALICE, BOB), tiles(), 9)
}

fn scores(state: &MemoryGameState) -> Vec<u32> {
    match state.mode {
        Mode::Solo { player } => vec![player.score],
        Mode::Versus { players, .. } => vec![players[0].score, players[1].score],
    }
}

#[test]
fn new_memory_tile_is_unmatched() {
    let tile = Tile::new("x");
    assert_eq!(tile.emoji, "x");
    assert!(!tile.matched);
    assert_eq!(PlayerState::new(5), PlayerState { user_id: 5, score: 0 });
}

#[test]
fn fresh_game_is_open() {
    let state = solo();
    assert_eq!(state.custom_id_prefix, "mem_9_");
    assert_eq!(state.total_pairs(), 3);
    assert_eq!(state.total_pairs() * 2, state.tiles.len());
    assert_eq!((state.matches, state.attempts), (0, 0));
    assert!(state.pending.is_none() && state.pending_owner.is_none());
    assert!(!state.locked);
    assert!(!is_finished(&state));
}

#[test]
fn generated_board_shows_eight_faces_twice() {
    for seed in 0..20u64 {
        let mut rng = StdRng::seed_from_u64(seed);
        let tiles = generate_tiles(&mut rng);
        assert_eq!(tiles.len(), 16);
        assert!(tiles.iter().all(|tile| !tile.matched));
        let mut faces: Vec<&str> = tiles.iter().map(|tile| tile.emoji).collect();
        faces.sort();
        for pair in faces.chunks(2) {
            assert_eq!(pair[0], pair[1]);
            assert!(EMOJI_POOL.contains(&pair[0]));
        }
        faces.dedup();
        assert_eq!(faces.len(), 8);
    }
}

#[test]
fn generated_boards_are_shuffled() {
    let boards: Vec<Vec<&str>> = (0..6u64)
        .map(|seed| {
            let mut rng = StdRng::seed_from_u64(seed);
            generate_tiles(&mut rng).iter().map(|tile| tile.emoji).collect()
        })
        .collect();
    assert!(boards.iter().any(|board| *board != boards[0]));
    assert!(boards.iter().any(|board| board.chunks(2).any(|pair| pair[0] != pair[1])));
}

#[test]
fn new_game_keeps_its_mode() {
    let mut rng = StdRng::seed_from_u64(4);
    let state = MemoryGameState::new(Mode::versus(ALICE, BOB), &mut rng);
    assert_eq!(state.tiles.len(), 16);
    assert_eq!(state.total_pairs(), 8);
    assert!(state.custom_id_prefix.starts_with("mem_"));
    assert!(state.mode.is_allowed(ALICE) && state.mode.is_allowed(BOB));
    assert_eq!(state.mode.active_player_id(), ALICE);
}

#[test]
fn selectable_tiles_are_on_the_board_unmatched_and_not_pending() {
    let mut state = solo();
    assert!(state.is_selectable(0));
    assert!(state.is_selectable(5));
    assert!(!state.is_selectable(6));
    assert!(!state.is_selectable(usize::MAX));
    state.select(0);
    assert!(!state.is_selectable(0));
    assert!(state.is_selectable(2));
    state.select(2);
    assert!(!state.is_selectable(0));
    assert!(!state.is_selectable(2));
    assert!(state.is_selectable(1));
}

#[test]
fn first_tile_is_pending_and_second_is_compared() {
    let mut state = solo();
    assert_eq!(state.select(0), SelectionResult::FirstReveal);
    assert_eq!(state.pending, Some(0));
    assert_eq!(state.attempts, 0);
    assert_eq!(state.select(1), SelectionResult::Mismatch { pair: [0, 1] });
    assert_eq!((state.pending, state.attempts, state.matches), (None, 1, 0));
    assert!(!state.tiles[0].matched && !state.tiles[1].matched);
    assert_eq!(state.select(2), SelectionResult::FirstReveal);
    assert_eq!(state.select(0), SelectionResult::Matched { finished: false });
    assert_eq!((state.attempts, state.matches), (2, 1));
    assert!(state.tiles[0].matched && state.tiles[2].matched);
}

#[test]
fn last_pair_finishes_the_game() {
    let mut state = solo();
    for (first, second, finished) in [(0, 2, false), (1, 4, false), (3, 5, true)] {
        state.select(first);
        assert_eq!(state.select(second), SelectionResult::Matched { finished });
    }
    assert_eq!(state.matches, state.total_pairs());
    assert!(state.tiles.iter().all(|tile| tile.matched));
    assert!(is_finished(&state));
}

#[test]
fn solo_game_runs_to_the_end() {
    let mut state = solo();
    assert_eq!(select(&mut state, ALICE, 0), MemoryOutcome::FirstReveal);
    assert_eq!(state.pending_owner, Some(ALICE));
    assert_eq!(select(&mut state, ALICE, 1), MemoryOutcome::Mismatch { pair: [0, 1] });
    assert!(state.locked);
    resume(&mut state);
    assert!(!state.locked);
    for (first, second) in [(0, 2), (1, 4)] {
        select(&mut state, ALICE, first);
        let outcome = select(&mut state, ALICE, second);
        assert_eq!(outcome, MemoryOutcome::Matched { finished: false });
        assert_eq!(outcome.class(), OutcomeClass::Progress);
    }
    select(&mut state, ALICE, 3);
    let last = select(&mut state, ALICE, 5);
    assert_eq!(last, MemoryOutcome::Matched { finished: true });
    assert_eq!(last.class(), OutcomeClass::Settlement);
    assert!(is_finished(&state));
    assert_eq!(scores(&state), vec![3]);
    assert_eq!(state.attempts, 4);
    assert_eq!(state.mode.standing(), Standing::SoloComplete { player: ALICE });
}

#[test]
fn strangers_are_turned_away() {
    let mut state = versus();
    let outcome = select(&mut state, CAROL, 0);
    assert_eq!(outcome, MemoryOutcome::NotParticipant);
    assert_eq!(outcome.class(), OutcomeClass::Rejected);
    assert!(state.pending.is_none() && state.pending_owner.is_none());
    let mut alone = solo();
    assert_eq!(select(&mut alone, BOB, 0), MemoryOutcome::NotParticipant);
}

#[test]
fn turns_are_enforced() {
    let mut state = versus();
    assert_eq!(select(&mut state, BOB, 0), MemoryOutcome::NotYourTurn);
    assert!(state.pending.is_none());
    assert_eq!(select(&mut state, ALICE, 0), MemoryOutcome::FirstReveal);
    assert_eq!(select(&mut state, BOB, 2), MemoryOutcome::AttemptInProgress);
    assert_eq!(state.pending, Some(0));
    assert_eq!(state.pending_owner, Some(ALICE));
    assert_eq!(state.attempts, 0);
}

#[test]
fn match_keeps_the_turn_and_mismatch_passes_it() {
    let mut state = versus();
    select(&mut state, ALICE, 0);
    assert_eq!(select(&mut state, ALICE, 2), MemoryOutcome::Matched { finished: false });
    assert_eq!(state.mode.active_player_id(), ALICE);
    assert_eq!(scores(&state), vec![1, 0]);
    select(&mut state, ALICE, 1);
    assert_eq!(select(&mut state, ALICE, 3), MemoryOutcome::Mismatch { pair: [1, 3] });
    assert_eq!(state.mode.active_player_id(), ALICE);
    resume(&mut state);
    assert_eq!(state.mode.active_player_id(), BOB);
    assert_eq!(select(&mut state, ALICE, 1), MemoryOutcome::NotYourTurn);
    select(&mut state, BOB, 1);
    assert_eq!(select(&mut state, BOB, 4), MemoryOutcome::Matched { finished: false });
    assert_eq!(state.mode.active_player_id(), BOB);
    assert_eq!(scores(&state), vec![1, 1]);
}

#[test]
fn locked_board_takes_no_clicks() {
    let mut state = versus();
    select(&mut state, ALICE, 0);
    select(&mut state, ALICE, 1);
    assert!(state.locked);
    for actor in [ALICE, BOB] {
        let outcome = select(&mut state, actor, 2);
        assert_eq!(outcome, MemoryOutcome::BoardLocked);
        assert_eq!(outcome.class(), OutcomeClass::Rejected);
    }
    assert!(state.pending.is_none());
    assert_eq!(state.attempts, 1);
    assert_eq!(state.mode.active_player_id(), ALICE);
}

#[test]
fn used_tiles_are_turned_away() {
    let mut state = solo();
    select(&mut state, ALICE, 0);
    assert_eq!(select(&mut state, ALICE, 0), MemoryOutcome::TileUsed);
    assert_eq!(select(&mut state, ALICE, 6), MemoryOutcome::TileUsed);
    assert_eq!(state.pending, Some(0));
    select(&mut state, ALICE, 2);
    assert_eq!(select(&mut state, ALICE, 0), MemoryOutcome::TileUsed);
    assert_eq!(select(&mut state, ALICE, 2), MemoryOutcome::TileUsed);
    assert_eq!((state.matches, state.attempts), (1, 1));
}

#[test]
fn finished_game_changes_no_more() {
    let mut state = versus();
    for (first, second) in [(0, 2), (1, 4), (3, 5)] {
        select(&mut state, ALICE, first);
        select(&mut state, ALICE, second);
    }
    assert!(is_finished(&state));
    let before = (state.matches, state.attempts, state.pending, state.locked, scores(&state));
    for actor in [ALICE, BOB, CAROL] {
        for index in 0..8 {
            let outcome = select(&mut state, actor, index);
            assert_eq!(outcome.class(), OutcomeClass::Rejected);
        }
    }
    resume(&mut state);
    assert_eq!(
        (state.matches, state.attempts, state.pending, state.locked, scores(&state)),
        before
    );
    assert!(state.tiles.iter().all(|tile| tile.matched));
    assert_eq!(state.mode.active_player_id(), ALICE);
}

#[test]
fn resume_without_a_lock_changes_nothing() {
    let mut state = versus();
    resume(&mut state);
    assert_eq!(state.mode.active_player_id(), ALICE);
    assert!(!state.locked);
}

#[test]
fn modes_know_their_players() {
    let solo = Mode::solo(ALICE);
    assert!(solo.is_allowed(ALICE) && !solo.is_allowed(BOB));
    assert!(solo.is_current_player(ALICE) && !solo.is_current_player(BOB));
    assert!(solo.is_strict_single_player());
    assert_eq!(solo.active_player_id(), ALICE);
    let mut versus = Mode::versus(ALICE, BOB);
    assert!(versus.is_allowed(ALICE) && versus.is_allowed(BOB) && !versus.is_allowed(CAROL));
    assert!(!versus.is_strict_single_player());
    assert!(versus.is_current_player(ALICE) && !versus.is_current_player(BOB));
    versus.advance_turn();
    assert!(versus.is_current_player(BOB));
    versus.advance_turn();
    assert_eq!(versus.active_player_id(), ALICE);
    let mut alone = Mode::solo(ALICE);
    alone.advance_turn();
    assert_eq!(alone.active_player_id(), ALICE);
}

#[test]
fn matches_are_scored_for_the_one_who_found_them() {
    let mut versus = Mode::versus(ALICE, BOB);
    versus.register_match(BOB);
    versus.register_match(BOB);
    versus.register_match(ALICE);
    versus.register_match(CAROL);
    assert_eq!(
        versus.standing(),
        Standing::Won { winner: BOB, winner_score: 2, loser: ALICE, loser_score: 1 }
    );
    versus.register_match(ALICE);
    assert_eq!(versus.standing(), Standing::Draw { left: ALICE, right: BOB, score: 2 });
    versus.register_match(ALICE);
    assert_eq!(
        versus.standing(),
        Standing::Won { winner: ALICE, winner_score: 3, loser: BOB, loser_score: 2 }
    );
    let mut solo = Mode::solo(ALICE);
    solo.register_match(BOB);
    solo.register_match(ALICE);
    assert!(matches!(solo, Mode::Solo { player } if player.score == 1));
}

#[test]
fn index_is_read_behind_the_prefix() {
    assert_eq!(parse_index("mem_9_4", "mem_9_"), Some(4));
    assert_eq!(parse_index("mem_9_", "mem_9_"), None);
    assert_eq!(parse_index("mem_8_4", "mem_9_"), None);
    assert_eq!(parse_index("mem_9_4 ", "mem_9_"), None);
}

#[test]
fn status_text_is_replaced() {
    let mut state = solo();
    state.set_status(String::from("go"));
    assert_eq!(state.status_text.as_deref(), Some("go"));
}

#[test]
fn tiles_look_as_the_game_stands() {
    let mut state = solo();
    select(&mut state, ALICE, 0);
    assert_eq!(tile_look(&state, 0, None), TileLook::Pending);
    assert_eq!(tile_look(&state, 1, None), TileLook::Hidden);
    select(&mut state, ALICE, 1);
    assert_eq!(tile_look(&state, 0, Some([0, 1])), TileLook::Mismatched);
    assert_eq!(tile_look(&state, 1, Some([0, 1])), TileLook::Mismatched);
    assert_eq!(tile_look(&state, 0, None), TileLook::Hidden);
    resume(&mut state);
    select(&mut state, ALICE, 0);
    select(&mut state, ALICE, 2);
    assert_eq!(tile_look(&state, 2, Some([0, 2])), TileLook::Matched);
    assert!(TileLook::Hidden.is_clickable());
    assert!(!TileLook::Matched.is_clickable());
    assert!(!TileLook::Pending.is_clickable());
    let looks = board_looks(&state, None);
    assert_eq!(
        looks,
        vec![
            TileLook::Matched,
            TileLook::Hidden,
            TileLook::Matched,
            TileLook::Hidden,
            TileLook::Hidden,
            TileLook::Hidden
        ]
    );
}

#[test]
fn finished_board_has_no_clickable_tile() {
    let mut state = solo();
    for (first, second) in [(0, 2), (1, 4), (3, 5)] {
        select(&mut state, ALICE, first);
        select(&mut state, ALICE, second);
    }
    assert!(board_looks(&state, None).iter().all(|look| !look.is_clickable()));
}
