//! The board and the counters of one Mines round.

use super::tile::Tile;
use super::{
    BOARD_COLUMNS, BOARD_ROWS, CASHOUT_STEP, FORCE_CASHOUT_AFTER, MAX_MULTIPLIER_HUNDREDTHS,
    MAX_WAGER, MIN_WAGER, MULTIPLIER_STEP_HUNDREDTHS, TOTAL_BOMBS,
};
use crate::random::{random_u64, shuffle};
use crate::text::{decimal, push_decimal};
use rand::rngs::StdRng;
use vstd::prelude::*;

verus! {

/// What revealing a tile found.
#[derive(Clone, Copy, PartialEq, Eq, Structural, Debug)]
pub enum RevealOutcome {
    Diamond,
    Bomb,
    AlreadyOpened,
}

/// One round of Mines.
pub struct MinesGameState {
    pub tiles: Vec<Tile>,
    pub custom_id_prefix: String,
    pub revealed_safe: usize,
    pub wager: i64,
    pub status_text: Option<String>,
    pub busted: bool,
    pub gave_up: bool,
    pub cashed_out_amount: Option<i64>,
    pub refunded: bool,
}

/// The round as a mathematical value.
pub struct MinesView {
    pub tiles: Seq<Tile>,
    pub custom_id_prefix: Seq<char>,
    pub revealed_safe: nat,
    pub wager: int,
    pub status_text: Option<Seq<char>>,
    pub busted: bool,
    pub gave_up: bool,
    pub cashed_out_amount: Option<int>,
    pub refunded: bool,
}

impl View for MinesGameState {
    type V = MinesView;

    open spec fn view(&self) -> MinesView {
        MinesView {
            tiles: self.tiles@,
            custom_id_prefix: self.custom_id_prefix@,
            revealed_safe: self.revealed_safe as nat,
            wager: self.wager as int,
            status_text: match self.status_text {
                Some(text) => Some(text@),
                None => None,
            },
            busted: self.busted,
            gave_up: self.gave_up,
            cashed_out_amount: match self.cashed_out_amount {
                Some(amount) => Some(amount as int),
                None => None,
            },
            refunded: self.refunded,
        }
    }
}

/// How many diamonds lie open.
pub open spec fn safe_revealed(tiles: Seq<Tile>) -> nat
    decreases tiles.len(),
{
    if tiles.len() == 0 {
        0
    } else {
        safe_revealed(tiles.drop_last()) + if tiles.last().revealed && !tiles.last().is_bomb {
            1nat
        } else {
            0nat
        }
    }
}

/// How many tiles hide a bomb.
pub open spec fn bomb_count(tiles: Seq<Tile>) -> nat
    decreases tiles.len(),
{
    if tiles.len() == 0 {
        0
    } else {
        bomb_count(tiles.drop_last()) + if tiles.last().is_bomb {
            1nat
        } else {
            0nat
        }
    }
}

/// The board with every tile turned face up.
pub open spec fn all_revealed(tiles: Seq<Tile>) -> Seq<Tile> {
    Seq::new(tiles.len(), |i: int| Tile { is_bomb: tiles[i].is_bomb, revealed: true })
}

/// A fresh board over the given layout of bombs.
pub open spec fn hidden_board(layout: Seq<bool>) -> Seq<Tile> {
    Seq::new(layout.len(), |i: int| Tile { is_bomb: layout[i], revealed: false })
}

/// The payout multiplier after `revealed` diamonds, in hundredths: one, plus a
/// fixed step for each diamond, up to the cap.
pub open spec fn multiplier_hundredths(revealed: nat) -> nat {
    if 100 + MULTIPLIER_STEP_HUNDREDTHS * revealed < MAX_MULTIPLIER_HUNDREDTHS {
        (100 + MULTIPLIER_STEP_HUNDREDTHS * revealed) as nat
    } else {
        MAX_MULTIPLIER_HUNDREDTHS as nat
    }
}

/// What cashing out pays after `revealed` diamonds: nothing before the first
/// diamond, else the wager times the multiplier, rounded down.
pub open spec fn payout(wager: int, revealed: nat) -> int {
    if revealed == 0 {
        0
    } else {
        wager * multiplier_hundredths(revealed) / 100
    }
}

/// The prefix of the round's button ids for a given nonce.
pub open spec fn id_prefix(nonce: u64) -> Seq<char> {
    "mines_"@ + decimal(nonce as nat) + "_"@
}

impl MinesView {
    /// The round has ended: by a bomb, by giving up or by cashing out.
    pub open spec fn finished(self) -> bool {
        self.busted || self.gave_up || self.cashed_out_amount is Some
    }

    /// The wager is one that the game takes, and no more diamonds are counted
    /// than lie open.
    pub open spec fn wf(self) -> bool {
        &&& MIN_WAGER <= self.wager <= MAX_WAGER
        &&& self.revealed_safe <= safe_revealed(self.tiles)
    }

    /// The player may cash out: enough diamonds are found and the round is
    /// open.
    pub open spec fn can_cash_out(self) -> bool {
        self.revealed_safe >= CASHOUT_STEP && !self.finished()
    }

    /// The open round has reached the number of diamonds at which it cashes
    /// out by itself.
    pub open spec fn force_cashout_reached(self) -> bool {
        self.revealed_safe >= FORCE_CASHOUT_AFTER && !self.finished()
    }

    /// How many diamonds are still missing before cashing out opens.
    pub open spec fn remaining_for_cashout(self) -> nat {
        if self.revealed_safe >= CASHOUT_STEP {
            0
        } else {
            (CASHOUT_STEP - self.revealed_safe) as nat
        }
    }

    /// What cashing out would pay now.
    pub open spec fn projected_payout(self) -> int {
        payout(self.wager, self.revealed_safe)
    }

    /// The round after a click on tile `index`, and what the click found.
    pub open spec fn reveal_tile(self, index: int) -> (MinesView, Option<RevealOutcome>) {
        if !(0 <= index < self.tiles.len()) {
            (self, None)
        } else if self.tiles[index].revealed {
            (self, Some(RevealOutcome::AlreadyOpened))
        } else {
            let opened = Tile { is_bomb: self.tiles[index].is_bomb, revealed: true };
            let tiles = self.tiles.update(index, opened);
            if opened.is_bomb {
                (MinesView { tiles, ..self }, Some(RevealOutcome::Bomb))
            } else {
                (
                    MinesView { tiles, revealed_safe: self.revealed_safe + 1, ..self },
                    Some(RevealOutcome::Diamond),
                )
            }
        }
    }

    /// The round with every tile turned face up.
    pub open spec fn reveal_all(self) -> MinesView {
        MinesView { tiles: all_revealed(self.tiles), ..self }
    }
}

/// No more diamonds lie open than there are tiles.
pub proof fn lemma_safe_revealed_bound(tiles: Seq<Tile>)
    ensures
        safe_revealed(tiles) <= tiles.len(),
    decreases tiles.len(),
{
    if tiles.len() > 0 {
        lemma_safe_revealed_bound(tiles.drop_last());
    }
}

/// Opening a hidden tile adds one open diamond if it hides none, and none if
/// it hides a bomb.
pub proof fn lemma_open_one(tiles: Seq<Tile>, index: int)
    requires
        0 <= index < tiles.len(),
        !tiles[index].revealed,
    ensures
        safe_revealed(
            tiles.update(index, Tile { is_bomb: tiles[index].is_bomb, revealed: true }),
        ) == safe_revealed(tiles) + if tiles[index].is_bomb {
            0nat
        } else {
            1nat
        },
    decreases tiles.len(),
{
    let opened = Tile { is_bomb: tiles[index].is_bomb, revealed: true };
    let after = tiles.update(index, opened);
    if index == tiles.len() - 1 {
        assert(after.drop_last() =~= tiles.drop_last());
    } else {
        lemma_open_one(tiles.drop_last(), index);
        assert(after.drop_last() =~= tiles.drop_last().update(index, opened));
    }
}

/// A click that finds a diamond counts exactly one, and a diamond is found
/// exactly where the click opens a hidden tile that holds no bomb. Any other
/// click leaves the count as it was.
pub proof fn lemma_diamond_counts_one(round: MinesView, index: int)
    ensures
        round.reveal_tile(index).1 == Some(RevealOutcome::Diamond) <==> 0 <= index
            < round.tiles.len() && !round.tiles[index].revealed && !round.tiles[index].is_bomb,
        round.reveal_tile(index).0.revealed_safe == round.revealed_safe + if round.reveal_tile(
            index,
        ).1 == Some(RevealOutcome::Diamond) {
            1nat
        } else {
            0nat
        },
{
}

/// Turning every tile face up hides no diamond that lay open.
pub proof fn lemma_all_revealed_grows(tiles: Seq<Tile>)
    ensures
        safe_revealed(tiles) <= safe_revealed(all_revealed(tiles)),
    decreases tiles.len(),
{
    if tiles.len() > 0 {
        lemma_all_revealed_grows(tiles.drop_last());
        assert(all_revealed(tiles).drop_last() =~= all_revealed(tiles.drop_last()));
    }
}

/// A fresh board shows no diamond and hides as many bombs as its layout
/// marks.
pub proof fn lemma_hidden_board(layout: Seq<bool>)
    ensures
        safe_revealed(hidden_board(layout)) == 0,
        bomb_count(hidden_board(layout)) == layout.to_multiset().count(true),
    decreases layout.len(),
{
    if layout.len() == 0 {
        layout.to_multiset_ensures();
        vstd::multiset::axiom_count_le_len(layout.to_multiset(), true);
    } else {
        let shorter = layout.drop_last();
        lemma_hidden_board(shorter);
        assert(hidden_board(layout).drop_last() =~= hidden_board(shorter));
        shorter.to_multiset_ensures();
        assert(shorter.push(layout.last()) =~= layout);
        assert(layout.to_multiset() =~= shorter.to_multiset().insert(layout.last()));
    }
}

/// The multiplier never falls as diamonds are found, and never passes the cap.
pub proof fn lemma_multiplier_monotone(fewer: nat, more: nat)
    requires
        fewer <= more,
    ensures
        100 <= multiplier_hundredths(fewer) <= multiplier_hundredths(more)
            <= MAX_MULTIPLIER_HUNDREDTHS,
{
}

/// The projected payout never falls as diamonds are found, and never exceeds
/// the wager times the highest multiplier.
pub proof fn lemma_payout_monotone(wager: int, fewer: nat, more: nat)
    requires
        0 <= wager,
        fewer <= more,
    ensures
        0 <= payout(wager, fewer) <= payout(wager, more),
        payout(wager, more) * 100 <= wager * MAX_MULTIPLIER_HUNDREDTHS,
{
    lemma_multiplier_monotone(fewer, more);
    let low = multiplier_hundredths(fewer) as int;
    let high = multiplier_hundredths(more) as int;
    assert(0 <= wager * low <= wager * high <= wager * 420) by (nonlinear_arith)
        requires
            0 <= wager,
            0 <= low <= high <= 420,
    ;
    assert(0 <= (wager * low) / 100 <= (wager * high) / 100);
    assert(((wager * high) / 100) * 100 <= wager * high);
}

impl MinesGameState {
    /// The state's own invariant, read off its view.
    pub open spec fn wf(&self) -> bool {
        self@.wf()
    }

    /// A fresh round over a given board, with the button ids that `nonce`
    /// names.
    pub fn from_parts(wager: i64, tiles: Vec<Tile>, nonce: u64) -> (state: MinesGameState)
        requires
            MIN_WAGER <= wager <= MAX_WAGER,
            safe_revealed(tiles@) == 0,
        ensures
            state.wf(),
            state@ == (MinesView {
                tiles: tiles@,
                custom_id_prefix: id_prefix(nonce),
                revealed_safe: 0,
                wager: wager as int,
                status_text: None,
                busted: false,
                gave_up: false,
                cashed_out_amount: None,
                refunded: false,
            }),
    {
        let mut custom_id_prefix = String::from_str("mines_");
        push_decimal(&mut custom_id_prefix, nonce);
        custom_id_prefix.append("_");
        MinesGameState {
            tiles,
            custom_id_prefix,
            revealed_safe: 0,
            wager,
            status_text: None,
            busted: false,
            gave_up: false,
            cashed_out_amount: None,
            refunded: false,
        }
    }

    /// A fresh round: the board is laid out at random, as are the button ids.
    pub fn new(wager: i64, rng: &mut StdRng) -> (state: MinesGameState)
        requires
            MIN_WAGER <= wager <= MAX_WAGER,
        ensures
            state.wf(),
            state@.tiles.len() == BOARD_COLUMNS * BOARD_ROWS,
            bomb_count(state@.tiles) == TOTAL_BOMBS,
            forall|i: int| 0 <= i < state@.tiles.len() ==> !(#[trigger] state@.tiles[i]).revealed,
            exists|nonce: u64| state@.custom_id_prefix == id_prefix(nonce),
            state@.revealed_safe == 0,
            state@.wager == wager,
            state@.status_text is None,
            !state@.finished(),
            !state@.refunded,
    {
        let tiles = generate_tiles(rng);
        let nonce: u64 = random_u64(rng);
        MinesGameState::from_parts(wager, tiles, nonce)
    }

    /// Opens the tile at `index`, if the board has one there that is still
    /// hidden, and counts a diamond found.
    pub fn reveal_tile(&mut self, index: usize) -> (outcome: Option<RevealOutcome>)
        requires
            old(self).wf(),
        ensures
            final(self).wf(),
            final(self)@ == old(self)@.reveal_tile(index as int).0,
            outcome == old(self)@.reveal_tile(index as int).1,
    {
        if index >= self.tiles.len() {
            return None;
        }
        if self.tiles[index].revealed {
            return Some(RevealOutcome::AlreadyOpened);
        }
        proof {
            lemma_open_one(self.tiles@, index as int);
            lemma_safe_revealed_bound(
                self.tiles@.update(
                    index as int,
                    Tile { is_bomb: self.tiles@[index as int].is_bomb, revealed: true },
                ),
            );
        }
        self.tiles[index].revealed = true;
        assert(self.tiles@ =~= old(self).tiles@.update(
            index as int,
            Tile { is_bomb: old(self).tiles@[index as int].is_bomb, revealed: true },
        ));
        if self.tiles[index].is_bomb {
            Some(RevealOutcome::Bomb)
        } else {
            self.revealed_safe += 1;
            Some(RevealOutcome::Diamond)
        }
    }

    /// Turns every tile face up.
    pub fn reveal_all(&mut self)
        requires
            old(self).wf(),
        ensures
            final(self).wf(),
            final(self)@ == old(self)@.reveal_all(),
    {
        let mut i: usize = 0;
        while i < self.tiles.len()
            invariant
                i <= self.tiles.len(),
                self.tiles.len() == old(self).tiles.len(),
                forall|j: int|
                    0 <= j < i ==> self.tiles@[j] == (Tile {
                        is_bomb: old(self).tiles@[j].is_bomb,
                        revealed: true,
                    }),
                forall|j: int| i <= j < self.tiles.len() ==> self.tiles@[j] == old(self).tiles@[j],
                self.custom_id_prefix == old(self).custom_id_prefix,
                self.revealed_safe == old(self).revealed_safe,
                self.wager == old(self).wager,
                self.status_text == old(self).status_text,
                self.busted == old(self).busted,
                self.gave_up == old(self).gave_up,
                self.cashed_out_amount == old(self).cashed_out_amount,
                self.refunded == old(self).refunded,
            decreases self.tiles.len() - i,
        {
            self.tiles[i].revealed = true;
            i += 1;
        }
        proof {
            assert(self.tiles@ =~= all_revealed(old(self).tiles@));
            lemma_all_revealed_grows(old(self).tiles@);
        }
    }

    /// Whether the player may cash out now.
    pub fn can_cash_out(&self) -> (open: bool)
        ensures
            open == self@.can_cash_out(),
    {
        self.revealed_safe >= CASHOUT_STEP && !self.is_finished()
    }

    /// Whether the round has reached the number of diamonds at which it cashes
    /// out by itself.
    pub fn force_cashout_reached(&self) -> (reached: bool)
        ensures
            reached == self@.force_cashout_reached(),
    {
        self.revealed_safe >= FORCE_CASHOUT_AFTER && !self.is_finished()
    }

    /// How many diamonds are still missing before cashing out opens.
    pub fn remaining_for_cashout(&self) -> (missing: usize)
        ensures
            missing == self@.remaining_for_cashout(),
    {
        if self.revealed_safe >= CASHOUT_STEP {
            0
        } else {
            CASHOUT_STEP - self.revealed_safe
        }
    }

    /// The payout multiplier that the diamonds found so far have earned, in
    /// hundredths.
    pub fn current_multiplier_hundredths(&self) -> (multiplier: u64)
        ensures
            multiplier == multiplier_hundredths(self@.revealed_safe),
    {
        // From this many diamonds on the cap has been reached.
        let enough: usize = 18;
        if self.revealed_safe >= enough {
            MAX_MULTIPLIER_HUNDREDTHS
        } else {
            let found: u64 = self.revealed_safe as u64;
            let grown: u64 = 100 + MULTIPLIER_STEP_HUNDREDTHS * found;
            if grown < MAX_MULTIPLIER_HUNDREDTHS {
                grown
            } else {
                MAX_MULTIPLIER_HUNDREDTHS
            }
        }
    }

    /// What cashing out would pay now.
    pub fn projected_payout(&self) -> (amount: i64)
        requires
            self.wf(),
        ensures
            amount == self@.projected_payout(),
            self@.revealed_safe > 0 ==> amount >= self@.wager,
    {
        if self.revealed_safe == 0 {
            0
        } else {
            let multiplier: i64 = self.current_multiplier_hundredths() as i64;
            assert(0 <= self.wager * multiplier <= 50_000 * 420) by (nonlinear_arith)
                requires
                    0 <= self.wager <= 50_000,
                    0 <= multiplier <= 420,
            ;
            assert(self.wager * multiplier >= self.wager * 100) by (nonlinear_arith)
                requires
                    0 <= self.wager,
                    100 <= multiplier,
            ;
            self.wager * multiplier / 100
        }
    }

    /// Whether the round has ended.
    pub fn is_finished(&self) -> (finished: bool)
        ensures
            finished == self@.finished(),
    {
        self.busted || self.gave_up || self.cashed_out_amount.is_some()
    }

    /// Replaces the line of text shown above the board.
    pub fn set_status(&mut self, status: String)
        ensures
            final(self)@ == (MinesView { status_text: Some(status@), ..old(self)@ }),
    {
        self.status_text = Some(status);
    }
}

/// Lays out a board: the bombs are put on the first tiles and the whole is
/// shuffled.
pub fn generate_tiles(rng: &mut StdRng) -> (tiles: Vec<Tile>)
    ensures
        tiles@.len() == BOARD_COLUMNS * BOARD_ROWS,
        bomb_count(tiles@) == TOTAL_BOMBS,
        safe_revealed(tiles@) == 0,
        forall|i: int| 0 <= i < tiles@.len() ==> !(#[trigger] tiles@[i]).revealed,
{
    let total_tiles: usize = BOARD_COLUMNS * BOARD_ROWS;
    let bombs: usize = if TOTAL_BOMBS < total_tiles {
        TOTAL_BOMBS
    } else {
        total_tiles
    };
    let mut layout: Vec<bool> = Vec::new();
    let mut slot: usize = 0;
    proof {
        layout@.to_multiset_ensures();
        vstd::multiset::axiom_count_le_len(layout@.to_multiset(), true);
    }
    while slot < total_tiles
        invariant
            slot <= total_tiles,
            total_tiles == 16,
            bombs == 5,
            layout@.len() == slot,
            layout@.to_multiset().count(true) == if slot < bombs {
                slot as nat
            } else {
                bombs as nat
            },
        decreases total_tiles - slot,
    {
        proof {
            layout@.to_multiset_ensures();
        }
        layout.push(slot < bombs);
        slot += 1;
    }
    let ghost ordered = layout@;
    shuffle(&mut layout, rng);
    proof {
        ordered.to_multiset_ensures();
        layout@.to_multiset_ensures();
    }
    let mut tiles: Vec<Tile> = Vec::new();
    let mut i: usize = 0;
    while i < layout.len()
        invariant
            i <= layout.len(),
            layout.len() == 16,
            tiles@.len() == i,
            forall|j: int| 0 <= j < i ==> tiles@[j] == (Tile { is_bomb: layout@[j], revealed: false }),
        decreases layout.len() - i,
    {
        tiles.push(Tile::new(layout[i]));
        i += 1;
    }
    proof {
        assert(tiles@ =~= hidden_board(layout@));
        lemma_hidden_board(layout@);
    }
    tiles
}

} // verus!
