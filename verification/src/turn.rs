//! Snapshot of the external turn authority's answers for one rendering or
//! parsing call: cell occupancy, the legal-move overlay for the side to
//! move, whose turn it is, and the two disk counts.
//!
//! This layer never computes game rules itself: a `Turn` value is filled in
//! by the caller from whatever authority owns the match, and every query
//! below merely reads it back.

use vstd::prelude::*;
use crate::game::{Coord, Side, BOARD_SIZE};

verus! {

/// The authority's answers about the live match, row-major over 64 cells.
///
/// `state` is `Some(side)` while it is `side`'s turn and `None` once the
/// game has ended. `legal` records, cell by cell, whether the authority
/// reports a move there legal for the side to move; it is meaningful only
/// while `state` is `Some(_)` and is never consulted otherwise.
pub struct Turn {
    pub cells: Vec<Option<Side>>,
    pub legal: Vec<bool>,
    pub state: Option<Side>,
    pub score_dark: u64,
    pub score_light: u64,
}

impl Turn {
    /// Both per-cell vectors cover the whole board.
    pub open spec fn wf(self) -> bool {
        self.cells@.len() == BOARD_SIZE * BOARD_SIZE && self.legal@.len() == BOARD_SIZE
            * BOARD_SIZE
    }

    /// Occupancy of the cell at `(row, col)`.
    pub open spec fn spec_cell(self, row: int, col: int) -> Option<Side> {
        self.cells@[row * BOARD_SIZE + col]
    }

    /// Whether the authority's overlay marks `(row, col)` legal.
    pub open spec fn spec_overlay(self, row: int, col: int) -> bool {
        self.legal@[row * BOARD_SIZE + col]
    }

    /// The authority accepts a move at `(row, col)`: the game is ongoing,
    /// the cell is empty, and the overlay marks it legal.
    pub open spec fn spec_check_move(self, row: int, col: int) -> bool {
        self.state is Some && self.spec_cell(row, col) is None && self.spec_overlay(row, col)
    }

    pub fn new(
        cells: Vec<Option<Side>>,
        legal: Vec<bool>,
        state: Option<Side>,
        score_dark: u64,
        score_light: u64,
    ) -> (r: Turn)
        requires
            cells@.len() == BOARD_SIZE * BOARD_SIZE,
            legal@.len() == BOARD_SIZE * BOARD_SIZE,
        ensures
            r == (Turn { cells, legal, state, score_dark, score_light }),
            r.wf(),
    {
        Turn { cells, legal, state, score_dark, score_light }
    }

    /// Whose turn it is, or `None` once the game has ended.
    pub fn get_state(&self) -> (r: Option<Side>)
        ensures
            r == self.state,
    {
        self.state
    }

    /// The two disk counts, Dark first.
    pub fn get_score(&self) -> (r: (u64, u64))
        ensures
            r == (self.score_dark, self.score_light),
    {
        (self.score_dark, self.score_light)
    }

    /// Occupancy of the cell at `coord`.
    pub fn get_cell(&self, coord: Coord) -> (r: Option<Side>)
        requires
            self.wf(),
            coord.wf(),
        ensures
            r == self.spec_cell(coord.row as int, coord.col as int),
    {
        self.cells[coord.row * BOARD_SIZE + coord.col]
    }

    /// Move validator bridge: whether the authority accepts a move at
    /// `coord` for the side to move. Always `false` once the game has
    /// ended or when the cell is occupied.
    pub fn check_move(&self, coord: Coord) -> (r: bool)
        requires
            self.wf(),
            coord.wf(),
        ensures
            r == self.spec_check_move(coord.row as int, coord.col as int),
    {
        let idx = coord.row * BOARD_SIZE + coord.col;
        self.state.is_some() && self.cells[idx].is_none() && self.legal[idx]
    }
}

} // verus!
