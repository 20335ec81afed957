//! What a player is shown when asked for a move.

use vstd::prelude::*;
use crate::board::Board;
use crate::coord::CoordinationFlat;

verus! {

/// A snapshot of the game for the player whose turn it is. The board in it is
/// a copy: nothing done to it reaches the game.
pub struct GameContext {
    /// A copy of the board.
    pub board: Board,
    /// Where the last stone was placed; `None` before the first move.
    pub last_point: Option<CoordinationFlat>,
    /// How many stones lie on the board.
    pub total_pieces: usize,
}

impl GameContext {
    pub fn new(board: Board, last_point: Option<CoordinationFlat>, total_pieces: usize) -> (context:
        Self)
        ensures
            context.board == board,
            context.last_point == last_point,
            context.total_pieces == total_pieces,
    {
        GameContext { board, last_point, total_pieces }
    }
}

} // verus!
