//! What the message of a round shows: the buttons of the board and the two
//! buttons below it, and the line that sums the round up.

use super::game_state::{MinesGameState, MinesView};
use super::tile::Tile;
use super::FORCE_CASHOUT_AFTER;
use vstd::prelude::*;

verus! {

/// What a button of the board shows.
#[derive(Clone, Copy, PartialEq, Eq, Structural, Debug)]
pub enum TileFace {
    Hidden,
    Diamond,
    Bomb,
}

/// How a button of the board is coloured.
#[derive(Clone, Copy, PartialEq, Eq, Structural, Debug)]
pub enum TileStyle {
    /// A tile that has not been opened.
    Plain,
    /// A diamond that the player found.
    Found,
    /// A bomb.
    Deadly,
}

/// A button of the board.
#[derive(Clone, Copy, PartialEq, Eq, Structural, Debug)]
pub struct TileButton {
    pub face: TileFace,
    pub style: TileStyle,
    pub disabled: bool,
}

/// The line that sums the round up.
#[derive(Clone, Copy, PartialEq, Eq, Structural, Debug)]
pub enum RoundSummary {
    /// The round was cashed out for `amount`.
    CashedOut { amount: i64 },
    /// A bomb ended the round.
    Busted,
    /// The player gave up and got the wager back.
    Refunded,
    /// The round was given up or abandoned without a refund.
    Forfeited,
    /// Cashing out is open and would pay `payout`.
    CashOutOpen { payout: i64 },
    /// No diamond has been found yet.
    NothingFound,
    /// `missing` more diamonds open the cash-out.
    CashOutLocked { missing: usize },
}

/// The buttons of a round.
pub struct MinesControls {
    pub tiles: Vec<TileButton>,
    pub cash_out_disabled: bool,
    pub give_up_disabled: bool,
}

/// The button of a tile: an open tile shows what it hid, and so does every
/// tile once the round is over; only a hidden tile of an open round can be
/// clicked.
pub open spec fn tile_button_spec(tile: Tile, finished: bool) -> TileButton {
    if tile.revealed {
        if tile.is_bomb {
            TileButton { face: TileFace::Bomb, style: TileStyle::Deadly, disabled: true }
        } else {
            TileButton { face: TileFace::Diamond, style: TileStyle::Found, disabled: true }
        }
    } else if finished {
        if tile.is_bomb {
            TileButton { face: TileFace::Bomb, style: TileStyle::Deadly, disabled: true }
        } else {
            TileButton { face: TileFace::Diamond, style: TileStyle::Plain, disabled: true }
        }
    } else {
        TileButton { face: TileFace::Hidden, style: TileStyle::Plain, disabled: false }
    }
}

/// The line that sums a round up.
pub open spec fn summary_spec(state: MinesView) -> RoundSummary {
    if state.cashed_out_amount is Some {
        RoundSummary::CashedOut { amount: state.cashed_out_amount->0 as i64 }
    } else if state.busted {
        RoundSummary::Busted
    } else if state.gave_up {
        if state.refunded {
            RoundSummary::Refunded
        } else {
            RoundSummary::Forfeited
        }
    } else if state.can_cash_out() {
        RoundSummary::CashOutOpen { payout: state.projected_payout() as i64 }
    } else if state.revealed_safe == 0 {
        RoundSummary::NothingFound
    } else {
        RoundSummary::CashOutLocked { missing: state.remaining_for_cashout() as usize }
    }
}

/// How many diamonds are missing until the round cashes out by itself.
pub open spec fn remaining_until_forced(state: MinesView) -> nat {
    if state.revealed_safe >= FORCE_CASHOUT_AFTER {
        0
    } else {
        (FORCE_CASHOUT_AFTER - state.revealed_safe) as nat
    }
}

impl MinesControls {
    /// No button can be clicked.
    pub open spec fn all_disabled(&self) -> bool {
        &&& self.cash_out_disabled
        &&& self.give_up_disabled
        &&& forall|i: int| 0 <= i < self.tiles@.len() ==> (#[trigger] self.tiles@[i]).disabled
    }
}

/// Once a round has ended none of its controls can be used: every tile is
/// disabled, and so are cashing out and giving up.
pub proof fn lemma_finished_round_has_no_controls(state: MinesView)
    requires
        state.finished(),
    ensures
        !state.can_cash_out(),
        forall|i: int|
            0 <= i < state.tiles.len() ==> (#[trigger] tile_button_spec(
                state.tiles[i],
                state.finished(),
            )).disabled,
{
}

/// The button of a tile.
pub fn tile_button(tile: Tile, finished: bool) -> (button: TileButton)
    ensures
        button == tile_button_spec(tile, finished),
{
    if tile.revealed {
        if tile.is_bomb {
            TileButton { face: TileFace::Bomb, style: TileStyle::Deadly, disabled: true }
        } else {
            TileButton { face: TileFace::Diamond, style: TileStyle::Found, disabled: true }
        }
    } else if finished {
        if tile.is_bomb {
            TileButton { face: TileFace::Bomb, style: TileStyle::Deadly, disabled: true }
        } else {
            TileButton { face: TileFace::Diamond, style: TileStyle::Plain, disabled: true }
        }
    } else {
        TileButton { face: TileFace::Hidden, style: TileStyle::Plain, disabled: false }
    }
}

/// The buttons of a round. Once the round is over none of them can be
/// clicked.
pub fn controls(state: &MinesGameState) -> (controls: MinesControls)
    ensures
        controls.tiles@.len() == state@.tiles.len(),
        forall|i: int|
            0 <= i < controls.tiles@.len() ==> #[trigger] controls.tiles@[i] == tile_button_spec(
                state@.tiles[i],
                state@.finished(),
            ),
        controls.cash_out_disabled == !state@.can_cash_out(),
        controls.give_up_disabled == state@.finished(),
        state@.finished() ==> controls.all_disabled(),
{
    let finished: bool = state.is_finished();
    let mut tiles: Vec<TileButton> = Vec::new();
    let mut i: usize = 0;
    while i < state.tiles.len()
        invariant
            i <= state.tiles.len(),
            finished == state@.finished(),
            tiles@.len() == i,
            forall|j: int|
                0 <= j < i ==> #[trigger] tiles@[j] == tile_button_spec(state@.tiles[j], finished),
        decreases state.tiles.len() - i,
    {
        tiles.push(tile_button(state.tiles[i], finished));
        i += 1;
    }
    MinesControls { tiles, cash_out_disabled: !state.can_cash_out(), give_up_disabled: finished }
}

/// The line that sums the round up.
pub fn summary(state: &MinesGameState) -> (summary: RoundSummary)
    requires
        state.wf(),
    ensures
        summary == summary_spec(state@),
{
    if let Some(amount) = state.cashed_out_amount {
        RoundSummary::CashedOut { amount }
    } else if state.busted {
        RoundSummary::Busted
    } else if state.gave_up {
        if state.refunded {
            RoundSummary::Refunded
        } else {
            RoundSummary::Forfeited
        }
    } else if state.can_cash_out() {
        RoundSummary::CashOutOpen { payout: state.projected_payout() }
    } else if state.revealed_safe == 0 {
        RoundSummary::NothingFound
    } else {
        RoundSummary::CashOutLocked { missing: state.remaining_for_cashout() }
    }
}

/// How many diamonds are missing until the round cashes out by itself.
pub fn diamonds_until_forced(state: &MinesGameState) -> (missing: usize)
    ensures
        missing == remaining_until_forced(state@),
{
    if state.revealed_safe >= FORCE_CASHOUT_AFTER {
        0
    } else {
        FORCE_CASHOUT_AFTER - state.revealed_safe
    }
}

} // verus!
