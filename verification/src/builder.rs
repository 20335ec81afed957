//! Setting up a game: who sits where.

use vstd::prelude::*;
use crate::board::DEFAULT_BOARD_SIZE;
use crate::coord::CoordinationFlat;
use crate::game::{Game, GameModel};
use crate::piece::PieceType;
use crate::players::{EasyAi, IdiotAi, LocalHumanPlayer, Player};

verus! {

/// The kinds of player that can be seated.
#[derive(Copy, Clone, PartialEq, Eq, Structural, Debug)]
pub enum GameBuilderPlayerType {
    Human,
    IdiotAi,
    EasyAi,
}

/// Collects the choice of players, then builds the game.
pub struct GameBuilder {
    first_player: GameBuilderPlayerType,
    second_player: GameBuilderPlayerType,
}

/// `player` is a new player of kind `player_type` who holds `piece`; if it
/// is an `IdiotAi`, its diagonal starts after `(num, 0)`.
pub open spec fn is_new_player(
    player: Player,
    player_type: GameBuilderPlayerType,
    piece: PieceType,
    num: usize,
) -> bool {
    &&& player.piece() == piece
    &&& match player_type {
        GameBuilderPlayerType::Human => player is Human,
        GameBuilderPlayerType::IdiotAi => player matches Player::IdiotAi(ai) && ai.last() == (
            CoordinationFlat { x: num, y: 0 }),
        GameBuilderPlayerType::EasyAi => player is EasyAi,
    }
}

impl GameBuilder {
    /// The kind of player chosen for the first seat, who plays Black.
    pub closed spec fn first(&self) -> GameBuilderPlayerType {
        self.first_player
    }

    /// The kind of player chosen for the second seat, who plays White.
    pub closed spec fn second(&self) -> GameBuilderPlayerType {
        self.second_player
    }

    /// The number handed to an `IdiotAi` in the second seat: the count of
    /// `IdiotAi`s seated before it.
    pub open spec fn second_num(&self) -> usize {
        if self.first() == GameBuilderPlayerType::IdiotAi {
            1
        } else {
            0
        }
    }

    /// A builder with a human in both seats.
    pub fn new() -> (builder: GameBuilder)
        ensures
            builder.first() == GameBuilderPlayerType::Human,
            builder.second() == GameBuilderPlayerType::Human,
    {
        GameBuilder {
            first_player: GameBuilderPlayerType::Human,
            second_player: GameBuilderPlayerType::Human,
        }
    }

    /// Chooses the first player, who plays Black.
    pub fn set_first_player(&mut self, player_type: GameBuilderPlayerType) -> (builder: &mut Self)
        ensures
            builder.first() == player_type,
            builder.second() == old(self).second(),
            *final(self) == *final(builder),
    {
        self.first_player = player_type;
        self
    }

    /// Chooses the second player, who plays White.
    pub fn set_second_player(&mut self, player_type: GameBuilderPlayerType) -> (builder: &mut Self)
        ensures
            builder.first() == old(self).first(),
            builder.second() == player_type,
            *final(self) == *final(builder),
    {
        self.second_player = player_type;
        self
    }

    /// The game with the chosen players, not yet started.
    pub fn build(&self) -> (game: Game)
        ensures
            game.wf(),
            game@ == GameModel::fresh(DEFAULT_BOARD_SIZE as nat),
            is_new_player(game.player(0), self.first(), PieceType::BLACK, 0),
            is_new_player(game.player(1), self.second(), PieceType::WHITE, self.second_num()),
    {
        let second_num: usize = match self.first_player {
            GameBuilderPlayerType::IdiotAi => 1,
            _ => 0,
        };
        Game::new(
            GameBuilder::create_player(self.first_player, PieceType::BLACK, 0),
            GameBuilder::create_player(self.second_player, PieceType::WHITE, second_num),
        )
    }

    fn create_player(player_type: GameBuilderPlayerType, piece: PieceType, num: usize) -> (player:
        Player)
        ensures
            is_new_player(player, player_type, piece, num),
    {
        match player_type {
            GameBuilderPlayerType::Human => Player::Human(LocalHumanPlayer::new(piece)),
            GameBuilderPlayerType::IdiotAi => Player::IdiotAi(IdiotAi::new(piece, num)),
            GameBuilderPlayerType::EasyAi => Player::EasyAi(EasyAi::new(piece)),
        }
    }
}

} // verus!
