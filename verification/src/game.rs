//! Core data model: sides, board coordinates, and the closed command sets
//! produced by the command interpreters.

use vstd::prelude::*;

verus! {

/// The board is an 8 x 8 grid.
pub const BOARD_SIZE: usize = 8;

/// A player's colour. Dark moves first in a standard match.
#[derive(Clone, Copy, PartialEq, Eq, Structural, Debug)]
pub enum Side {
    Dark,
    Light,
}

/// A board coordinate: `row` and `col` are zero-indexed from the top-left
/// corner and must both lie in `[0, 8)`.
#[derive(Clone, Copy, PartialEq, Eq, Structural, Debug)]
pub struct Coord {
    pub row: usize,
    pub col: usize,
}

impl Coord {
    /// Both components lie on the board.
    pub open spec fn wf(self) -> bool {
        self.row < BOARD_SIZE && self.col < BOARD_SIZE
    }

    /// Row-major position of this cell in a 64-entry board vector.
    pub open spec fn spec_index(self) -> int {
        self.row * BOARD_SIZE + self.col
    }

    pub fn new(row: usize, col: usize) -> (r: Coord)
        requires
            row < BOARD_SIZE,
            col < BOARD_SIZE,
        ensures
            r == (Coord { row, col }),
            r.wf(),
    {
        Coord { row, col }
    }

    pub fn get_row(&self) -> (r: usize)
        ensures
            r == self.row,
    {
        self.row
    }

    pub fn get_col(&self) -> (r: usize)
        ensures
            r == self.col,
    {
        self.col
    }
}

/// A menu-level choice, produced only by the command interpreters.
#[derive(Clone, Copy, PartialEq, Eq, Structural, Debug)]
pub enum UserCommand {
    NewGame,
    HumanPlayer,
    AiWeak,
    AiMedium,
    AiStrong,
    Help,
    Credits,
    Quit,
}

/// An in-game request that is not a board move.
#[derive(Clone, Copy, PartialEq, Eq, Structural, Debug)]
pub enum OtherAction {
    Help,
    Quit,
}

/// The single action a player takes on their turn, as produced by one
/// successful parse of in-game input.
#[derive(Clone, Copy, PartialEq, Eq, Structural, Debug)]
pub enum PlayerAction {
    Move(Coord),
    Undo,
    Other(OtherAction),
}

} // verus!
