//! The board and the counters of one game of Memory.

use super::game_mode::Mode;
use super::tile::Tile;
use super::{BOARD_PAIRS, POOL_SIZE};
use crate::random::{random_u64, shuffle};
use crate::text::{decimal, parse_prefixed_index, prefixed_index_spec, push_decimal, str_eq};
use rand::rngs::StdRng;
use vstd::prelude::*;

verus! {

/// The faces that a board is drawn from.
pub const EMOJI_POOL: [&'static str; 40] = [
    "🍎", "🍌", "🍇", "🍒", "🍋", "🍉", "🍓", "🍑", "🥥", "🥝", "🍊", "🍍", "🥕", "🌽", "🥦", "🍪",
    "🌶️", "🍆", "🥔", "🧄", "🧅", "🍄", "🧀", "🥨", "🍿", "🍩", "🍰", "🧁", "🍫", "🍯", "🍭", "🍡",
    "🍙", "🍣", "🍤", "🍕", "🍔", "🌮", "🥐", "🥞",
];

/// What opening a tile did.
#[derive(Clone, Copy, PartialEq, Eq, Debug)]
pub enum SelectionResult {
    /// The first tile of an attempt lies open.
    FirstReveal,
    /// The second tile matched the first; `finished` says whether that was the
    /// last pair.
    Matched { finished: bool },
    /// The second tile did not match the first; `pair` names both.
    Mismatch { pair: [usize; 2] },
}

/// One game of Memory.
pub struct MemoryGameState {
    pub tiles: Vec<Tile>,
    pub pending: Option<usize>,
    pub pending_owner: Option<u64>,
    pub matches: usize,
    pub attempts: u32,
    pub locked: bool,
    pub custom_id_prefix: String,
    pub mode: Mode,
    pub status_text: Option<String>,
}

/// The game as a mathematical value.
pub struct MemoryView {
    pub tiles: Seq<Tile>,
    pub pending: Option<usize>,
    pub pending_owner: Option<u64>,
    pub matches: nat,
    pub attempts: nat,
    pub locked: bool,
    pub custom_id_prefix: Seq<char>,
    pub mode: Mode,
    pub status_text: Option<Seq<char>>,
}

impl View for MemoryGameState {
    type V = MemoryView;

    open spec fn view(&self) -> MemoryView {
        MemoryView {
            tiles: self.tiles@,
            pending: self.pending,
            pending_owner: self.pending_owner,
            matches: self.matches as nat,
            attempts: self.attempts as nat,
            locked: self.locked,
            custom_id_prefix: self.custom_id_prefix@,
            mode: self.mode,
            status_text: match self.status_text {
                Some(text) => Some(text@),
                None => None,
            },
        }
    }
}

/// How many tiles are matched.
pub open spec fn matched_count(tiles: Seq<Tile>) -> nat
    decreases tiles.len(),
{
    if tiles.len() == 0 {
        0
    } else {
        matched_count(tiles.drop_last()) + if tiles.last().matched {
            1nat
        } else {
            0nat
        }
    }
}

/// A fresh board that shows each of `faces` twice, side by side.
pub open spec fn paired(faces: Seq<&'static str>) -> Seq<Tile> {
    Seq::new(2 * faces.len(), |i: int| Tile { emoji: faces[i / 2], matched: false })
}

/// The prefix of the game's button ids for a given nonce.
pub open spec fn id_prefix(nonce: u64) -> Seq<char> {
    "mem_"@ + decimal(nonce as nat) + "_"@
}

/// The tile `tile` once it is matched.
pub open spec fn matched(tile: Tile) -> Tile {
    Tile { emoji: tile.emoji, matched: true }
}

impl MemoryView {
    /// How many pairs the board holds.
    pub open spec fn total_pairs(self) -> nat {
        self.tiles.len() / 2
    }

    /// Every tile is matched.
    pub open spec fn completed(self) -> bool {
        forall|i: int| 0 <= i < self.tiles.len() ==> (#[trigger] self.tiles[i]).matched
    }

    /// The tiles come in pairs and every match has closed two of them; an
    /// open first tile is on the board and unmatched; the players have scored
    /// no more pairs than were found.
    pub open spec fn wf(self) -> bool {
        &&& self.tiles.len() % 2 == 0
        &&& self.tiles.len() <= u32::MAX
        &&& 2 * self.matches == matched_count(self.tiles)
        &&& self.pending matches Some(first) ==> first < self.tiles.len()
            && !self.tiles[first as int].matched
        &&& self.mode.wf()
        &&& self.mode.total_score() <= self.matches
    }

    /// Whether the tile at `index` may be opened: it is on the board, not
    /// matched, and not the open first tile.
    pub open spec fn is_selectable(self, index: int) -> bool {
        0 <= index < self.tiles.len() && !self.tiles[index].matched && self.pending != Some(
            index as usize,
        )
    }

    /// The game after the tile at `index` has been opened, and what that did.
    pub open spec fn select(self, index: usize) -> (MemoryView, SelectionResult) {
        match self.pending {
            None => (MemoryView { pending: Some(index), ..self }, SelectionResult::FirstReveal),
            Some(first) => {
                let closed = MemoryView {
                    pending: None,
                    pending_owner: None,
                    attempts: self.attempts + 1,
                    ..self
                };
                if self.tiles[first as int].emoji@ == self.tiles[index as int].emoji@ {
                    (
                        MemoryView {
                            tiles: self.tiles.update(
                                first as int,
                                matched(self.tiles[first as int]),
                            ).update(index as int, matched(self.tiles[index as int])),
                            matches: self.matches + 1,
                            ..closed
                        },
                        SelectionResult::Matched {
                            finished: self.matches + 1 == self.total_pairs(),
                        },
                    )
                } else {
                    (closed, SelectionResult::Mismatch { pair: [first, index] })
                }
            },
        }
    }
}

/// No more tiles are matched than there are.
pub proof fn lemma_matched_count_bound(tiles: Seq<Tile>)
    ensures
        matched_count(tiles) <= tiles.len(),
        matched_count(tiles) == tiles.len() <==> forall|i: int|
            0 <= i < tiles.len() ==> (#[trigger] tiles[i]).matched,
        matched_count(tiles) == 0 <==> forall|i: int|
            0 <= i < tiles.len() ==> !(#[trigger] tiles[i]).matched,
    decreases tiles.len(),
{
    if tiles.len() > 0 {
        let shorter = tiles.drop_last();
        lemma_matched_count_bound(shorter);
        assert forall|i: int| 0 <= i < shorter.len() implies shorter[i] == tiles[i] by {}
        if matched_count(tiles) == tiles.len() {
            assert forall|i: int| 0 <= i < tiles.len() implies (#[trigger] tiles[i]).matched by {
                if i < shorter.len() {
                    assert(shorter[i].matched);
                }
            }
        }
        if forall|i: int| 0 <= i < tiles.len() ==> (#[trigger] tiles[i]).matched {
            assert forall|i: int| 0 <= i < shorter.len() implies (#[trigger] shorter[i]).matched by {
                assert(tiles[i].matched);
            }
        }
        if matched_count(tiles) == 0 {
            assert forall|i: int| 0 <= i < tiles.len() implies !(#[trigger] tiles[i]).matched by {
                if i < shorter.len() {
                    assert(!shorter[i].matched);
                }
            }
        }
        if forall|i: int| 0 <= i < tiles.len() ==> !(#[trigger] tiles[i]).matched {
            assert forall|i: int| 0 <= i < shorter.len() implies !(#[trigger] shorter[i]).matched by {
                assert(!tiles[i].matched);
            }
        }
    }
}

/// Matching a tile that was not matched adds one to the count.
pub proof fn lemma_match_one(tiles: Seq<Tile>, index: int)
    requires
        0 <= index < tiles.len(),
        !tiles[index].matched,
    ensures
        matched_count(tiles.update(index, matched(tiles[index]))) == matched_count(tiles) + 1,
    decreases tiles.len(),
{
    let after = tiles.update(index, matched(tiles[index]));
    if index == tiles.len() - 1 {
        assert(after.drop_last() =~= tiles.drop_last());
    } else {
        lemma_match_one(tiles.drop_last(), index);
        assert(after.drop_last() =~= tiles.drop_last().update(index, matched(tiles[index])));
    }
}

/// On every board the pairs are half the tiles, and a game is complete
/// exactly when as many pairs have been found as the board holds.
pub proof fn lemma_pairs(game: MemoryView)
    requires
        game.wf(),
    ensures
        game.total_pairs() * 2 == game.tiles.len(),
        game.matches <= game.total_pairs(),
        game.completed() <==> game.matches == game.total_pairs(),
{
    lemma_matched_count_bound(game.tiles);
}

impl MemoryGameState {
    /// The state's own invariant, read off its view.
    pub open spec fn wf(&self) -> bool {
        self@.wf()
    }

    /// A fresh game over a given board, with the button ids that `nonce`
    /// names.
    pub fn from_parts(mode: Mode, tiles: Vec<Tile>, nonce: u64) -> (state: MemoryGameState)
        requires
            mode.wf(),
            mode.total_score() == 0,
            tiles@.len() % 2 == 0,
            tiles@.len() <= u32::MAX,
            forall|i: int| 0 <= i < tiles@.len() ==> !(#[trigger] tiles@[i]).matched,
        ensures
            state.wf(),
            state@ == (MemoryView {
                tiles: tiles@,
                pending: None,
                pending_owner: None,
                matches: 0,
                attempts: 0,
                locked: false,
                custom_id_prefix: id_prefix(nonce),
                mode,
                status_text: None,
            }),
    {
        proof {
            lemma_matched_count_bound(tiles@);
        }
        let mut custom_id_prefix = String::from_str("mem_");
        push_decimal(&mut custom_id_prefix, nonce);
        custom_id_prefix.append("_");
        MemoryGameState {
            tiles,
            pending: None,
            pending_owner: None,
            matches: 0,
            attempts: 0,
            locked: false,
            custom_id_prefix,
            mode,
            status_text: None,
        }
    }

    /// A fresh game: the faces are drawn and laid out at random, as are the
    /// button ids.
    pub fn new(mode: Mode, rng: &mut StdRng) -> (state: MemoryGameState)
        requires
            mode.wf(),
            mode.total_score() == 0,
        ensures
            state.wf(),
            state@.tiles.len() == 2 * BOARD_PAIRS,
            drawn_from_pool(state@.tiles),
            exists|nonce: u64| state@.custom_id_prefix == id_prefix(nonce),
            state@.pending is None,
            state@.pending_owner is None,
            state@.matches == 0,
            state@.attempts == 0,
            !state@.locked,
            state@.mode == mode,
            state@.status_text is None,
    {
        let tiles = generate_tiles(rng);
        let nonce: u64 = random_u64(rng);
        MemoryGameState::from_parts(mode, tiles, nonce)
    }

    /// How many pairs the board holds.
    pub fn total_pairs(&self) -> (pairs: usize)
        ensures
            pairs == self@.total_pairs(),
    {
        self.tiles.len() / 2
    }

    /// Whether the tile at `index` may be opened: it is on the board, not
    /// matched, and not the open first tile.
    pub fn is_selectable(&self, index: usize) -> (selectable: bool)
        ensures
            selectable == self@.is_selectable(index as int),
    {
        index < self.tiles.len() && !self.tiles[index].matched && match self.pending {
            Some(first) => first != index,
            None => true,
        }
    }

    /// Opens the tile at `index`: as the first of an attempt, or as the second,
    /// which is then compared with the first.
    pub fn select(&mut self, index: usize) -> (result: SelectionResult)
        requires
            old(self).wf(),
            old(self)@.is_selectable(index as int),
            old(self).attempts < u32::MAX,
        ensures
            final(self).wf(),
            final(self)@ == old(self)@.select(index).0,
            result == old(self)@.select(index).1,
    {
        match self.pending {
            None => {
                self.pending = Some(index);
                SelectionResult::FirstReveal
            },
            Some(first) => {
                self.pending = None;
                self.pending_owner = None;
                self.attempts += 1;
                if str_eq(self.tiles[first].emoji, self.tiles[index].emoji) {
                    proof {
                        let one = self.tiles@.update(first as int, matched(self.tiles@[first as int]));
                        lemma_match_one(self.tiles@, first as int);
                        lemma_match_one(one, index as int);
                        lemma_matched_count_bound(
                            one.update(index as int, matched(self.tiles@[index as int])),
                        );
                    }
                    self.tiles[first].matched = true;
                    self.tiles[index].matched = true;
                    assert(self.tiles@ =~= old(self).tiles@.update(
                        first as int,
                        matched(old(self).tiles@[first as int]),
                    ).update(index as int, matched(old(self).tiles@[index as int])));
                    self.matches += 1;
                    SelectionResult::Matched { finished: self.matches == self.total_pairs() }
                } else {
                    SelectionResult::Mismatch { pair: [first, index] }
                }
            },
        }
    }

    /// Replaces the line of text shown above the board.
    pub fn set_status(&mut self, status: String)
        ensures
            final(self)@ == (MemoryView { status_text: Some(status@), ..old(self)@ }),
    {
        self.status_text = Some(status);
    }
}

/// What is known of a board that was laid out at random: it shows, in some
/// order, twice each of the faces that came first when the pool was shuffled.
pub open spec fn drawn_from_pool(tiles: Seq<Tile>) -> bool {
    exists|order: Seq<&'static str>|
        order.to_multiset() == EMOJI_POOL@.to_multiset() && #[trigger] paired(
            order.take(BOARD_PAIRS as int),
        ).to_multiset() == tiles.to_multiset()
}

/// Lays out a board: the pool of faces is shuffled, the first of them are
/// taken twice each, and the tiles are shuffled.
pub fn generate_tiles(rng: &mut StdRng) -> (tiles: Vec<Tile>)
    ensures
        tiles@.len() == 2 * BOARD_PAIRS,
        forall|i: int| 0 <= i < tiles@.len() ==> !(#[trigger] tiles@[i]).matched,
        drawn_from_pool(tiles@),
{
    let mut emojis: Vec<&'static str> = Vec::new();
    let mut slot: usize = 0;
    while slot < POOL_SIZE
        invariant
            slot <= POOL_SIZE,
            emojis@ == EMOJI_POOL@.take(slot as int),
        decreases POOL_SIZE - slot,
    {
        emojis.push(EMOJI_POOL[slot]);
        assert(emojis@ =~= EMOJI_POOL@.take(slot + 1));
        slot += 1;
    }
    assert(emojis@ =~= EMOJI_POOL@);
    shuffle(&mut emojis, rng);
    proof {
        EMOJI_POOL@.to_multiset_ensures();
        emojis@.to_multiset_ensures();
    }
    let ghost order = emojis@;
    let ghost chosen = order.take(BOARD_PAIRS as int);
    let mut tiles: Vec<Tile> = Vec::new();
    let mut pair: usize = 0;
    while pair < BOARD_PAIRS
        invariant
            pair <= BOARD_PAIRS,
            emojis@ == order,
            order.len() == POOL_SIZE,
            chosen == order.take(BOARD_PAIRS as int),
            tiles@ == paired(chosen.take(pair as int)),
        decreases BOARD_PAIRS - pair,
    {
        tiles.push(Tile::new(emojis[pair]));
        tiles.push(Tile::new(emojis[pair]));
        assert(tiles@ =~= paired(chosen.take(pair + 1)));
        pair += 1;
    }
    assert(chosen.take(BOARD_PAIRS as int) =~= chosen);
    let ghost laid_out = tiles@;
    shuffle(&mut tiles, rng);
    proof {
        laid_out.to_multiset_ensures();
        tiles@.to_multiset_ensures();
        assert forall|i: int| 0 <= i < tiles@.len() implies !(#[trigger] tiles@[i]).matched by {
            let tile = tiles@[i];
            assert(tiles@.contains(tile));
            assert(tiles@.to_multiset().count(tile) > 0);
            assert(laid_out.to_multiset().count(tile) > 0);
            assert(laid_out.contains(tile));
            let j = choose|j: int| 0 <= j < laid_out.len() && laid_out[j] == tile;
            assert(!laid_out[j].matched);
        }
        assert(paired(order.take(BOARD_PAIRS as int)).to_multiset() == tiles@.to_multiset());
    }
    tiles
}

/// Reads the tile index that a button id carries behind the prefix.
pub fn parse_index(custom_id: &str, prefix: &str) -> (index: Option<usize>)
    ensures
        index == prefixed_index_spec(custom_id@, prefix@),
{
    parse_prefixed_index(custom_id, prefix)
}

} // verus!
