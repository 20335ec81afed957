//! The two colours a player can hold.

use vstd::prelude::*;
use crate::board::BoardPieceType;

verus! {

/// The colour of a stone. Black moves first.
#[derive(Copy, Clone, PartialEq, Eq, Structural, Debug)]
pub enum PieceType {
    WHITE,
    BLACK,
}

impl PieceType {
    /// What a cell holds once a stone of this colour lies on it.
    pub open spec fn board_piece(self) -> BoardPieceType {
        match self {
            PieceType::BLACK => BoardPieceType::BLACK,
            PieceType::WHITE => BoardPieceType::WHITE,
        }
    }

    /// The colour's name in English, capitalised.
    pub fn get_name(&self) -> (name: &str)
        ensures
            *self == PieceType::WHITE ==> name@ == "White"@,
            *self == PieceType::BLACK ==> name@ == "Black"@,
    {
        match self {
            PieceType::WHITE => "White",
            PieceType::BLACK => "Black",
        }
    }

    pub fn to_board_piece_type(&self) -> (cell: BoardPieceType)
        ensures
            cell == self.board_piece(),
    {
        match self {
            PieceType::BLACK => BoardPieceType::BLACK,
            PieceType::WHITE => BoardPieceType::WHITE,
        }
    }
}

} // verus!
