//! The game: whose turn it is, what has been played, and whether it is over.

use vstd::prelude::*;
use crate::board::{Board, BoardError, BoardModel, BoardPieceType};
use crate::builder::{GameBuilder, GameBuilderPlayerType};
use crate::context::GameContext;
use crate::coord::CoordinationFlat;
use crate::piece::PieceType;
use crate::players::Player;
use crate::win::{check_five, completes_five, five_in_a_row, lemma_completes_five};

verus! {

/// Why a move was refused.
#[derive(Copy, Clone, PartialEq, Eq, Structural, Debug)]
pub enum GameError {
    /// The game has not been started.
    NotStarted,
    /// The game has a winner; nothing more can be placed.
    GameOver,
    /// The board refused the stone. The turn stays with the same player, who
    /// may try another point.
    Board(BoardError),
}

/// The colour of the player in seat `slot`: Black sits in seat 0 and moves
/// first, White sits in seat 1.
pub open spec fn slot_piece(slot: int) -> PieceType {
    if slot == 0 {
        PieceType::BLACK
    } else {
        PieceType::WHITE
    }
}

/// The game as a mathematical object.
pub struct GameModel {
    pub board: BoardModel,
    /// The seat of the player to move or, once the game has ended, of the
    /// winner.
    pub current_player: int,
    /// Every stone placed, in the order of play.
    pub history: Seq<(PieceType, CoordinationFlat)>,
    pub started: bool,
    pub ended: bool,
}

impl GameModel {
    /// A game that has not been started, on an empty board.
    pub open spec fn fresh(size: nat) -> GameModel {
        GameModel {
            board: BoardModel::empty(size),
            current_player: 0,
            history: Seq::empty(),
            started: false,
            ended: false,
        }
    }

    /// The colour of the player to move.
    pub open spec fn active_piece(self) -> PieceType {
        slot_piece(self.current_player)
    }

    /// The last stone placed completed five in a row.
    pub open spec fn last_wins(self) -> bool {
        self.history.len() > 0 && completes_five(
            self.board,
            self.history.last().0.board_piece(),
            self.history.last().1.x as int,
            self.history.last().1.y as int,
        )
    }

    /// What holds of every game, whatever has been played.
    pub open spec fn wf(self) -> bool {
        &&& self.board.wf()
        &&& self.current_player == 0 || self.current_player == 1
        &&& self.ended ==> self.started
        &&& !self.started ==> self.history.len() == 0
        // the stones on the board are those of the history
        &&& self.board.stones.dom().finite()
        &&& self.board.stones.dom().len() == self.history.len()
        &&& forall|i: int|
            0 <= i < self.history.len() ==> self.board.holds(
                (#[trigger] self.history[i]).0.board_piece(),
                (self.history[i].1.x as int, self.history[i].1.y as int),
            )
        // Black and White take turns, Black first
        &&& forall|i: int|
            0 <= i < self.history.len() ==> (#[trigger] self.history[i]).0 == slot_piece(i % 2)
        &&& self.current_player == if self.ended {
            (self.history.len() - 1) % 2
        } else {
            self.history.len() as int % 2
        }
        // the game is over exactly when the last stone won it
        &&& self.ended == self.last_wins()
    }

    /// The game after `Game::start`.
    pub open spec fn start(self) -> GameModel {
        GameModel { started: true, ..self }
    }

    /// What `Game::point` answers.
    pub open spec fn point(self, coord: CoordinationFlat) -> Result<Option<PieceType>, GameError> {
        if !self.started {
            Err(GameError::NotStarted)
        } else if self.ended {
            Err(GameError::GameOver)
        } else {
            match self.board.place(coord, self.active_piece().board_piece()) {
                Err(e) => Err(GameError::Board(e)),
                Ok(_) => if completes_five(
                    self.board.after_place(coord, self.active_piece().board_piece()),
                    self.active_piece().board_piece(),
                    coord.x as int,
                    coord.y as int,
                ) {
                    Ok(Some(self.active_piece()))
                } else {
                    Ok(None)
                },
            }
        }
    }

    /// The game that `Game::point` leaves behind. A refused move changes
    /// nothing. An accepted one is on the board and at the end of the
    /// history; it ends the game if it wins, and passes the turn to the other
    /// player if it does not.
    pub open spec fn after_point(self, coord: CoordinationFlat) -> GameModel {
        match self.point(coord) {
            Err(_) => self,
            Ok(winner) => GameModel {
                board: self.board.after_place(coord, self.active_piece().board_piece()),
                current_player: if winner.is_some() {
                    self.current_player
                } else {
                    1 - self.current_player
                },
                history: self.history.push((self.active_piece(), coord)),
                started: true,
                ended: winner.is_some(),
            },
        }
    }

    /// A move keeps a well-formed game well formed.
    pub proof fn lemma_after_point_wf(self, coord: CoordinationFlat)
        requires
            self.wf(),
        ensures
            self.after_point(coord).wf(),
    {
        let after = self.after_point(coord);
        if self.point(coord).is_ok() {
            let piece = self.active_piece();
            let key = (coord.x as int, coord.y as int);
            assert(!self.board.stones.dom().contains(key));
            assert(after.board.stones == self.board.stones.insert(key, piece));
            assert(after.board.stones.dom() =~= self.board.stones.dom().insert(key));
            assert forall|i: int| 0 <= i < after.history.len() implies after.board.holds(
                (#[trigger] after.history[i]).0.board_piece(),
                (after.history[i].1.x as int, after.history[i].1.y as int),
            ) by {
                if i < self.history.len() {
                    assert(after.history[i] == self.history[i]);
                }
            }
            assert forall|i: int| 0 <= i < after.history.len() implies (
            #[trigger] after.history[i]).0 == slot_piece(i % 2) by {
                if i < self.history.len() {
                    assert(after.history[i] == self.history[i]);
                }
            }
            assert(after.history.last() == (piece, coord));
        }
    }
}

/// What can be done to a game.
pub enum Action {
    /// `Game::start`
    Start,
    /// `Game::point` with a coordinate
    Point(CoordinationFlat),
}

impl GameModel {
    /// The game after `action`.
    pub open spec fn act(self, action: Action) -> GameModel {
        match action {
            Action::Start => self.start(),
            Action::Point(coord) => self.after_point(coord),
        }
    }

    /// Whether `action` puts a stone on the board.
    pub open spec fn places(self, action: Action) -> bool {
        match action {
            Action::Start => false,
            Action::Point(coord) => self.point(coord).is_ok(),
        }
    }

    /// The game after `actions`, from first to last.
    pub open spec fn run(self, actions: Seq<Action>) -> GameModel
        decreases actions.len(),
    {
        if actions.len() == 0 {
            self
        } else {
            self.run(actions.drop_last()).act(actions.last())
        }
    }

    /// How many of `actions` put a stone on the board.
    pub open spec fn placements(self, actions: Seq<Action>) -> nat
        decreases actions.len(),
    {
        if actions.len() == 0 {
            0
        } else {
            self.placements(actions.drop_last()) + if self.run(actions.drop_last()).places(
                actions.last(),
            ) {
                1nat
            } else {
                0nat
            }
        }
    }

    /// A game that has not been started is well formed.
    pub proof fn lemma_fresh_wf(size: nat)
        ensures
            GameModel::fresh(size).wf(),
    {
    }

    /// Whatever is done to a well-formed game, it stays well formed.
    pub proof fn lemma_run_wf(self, actions: Seq<Action>)
        requires
            self.wf(),
        ensures
            self.run(actions).wf(),
        decreases actions.len(),
    {
        if actions.len() > 0 {
            let before = self.run(actions.drop_last());
            self.lemma_run_wf(actions.drop_last());
            match actions.last() {
                Action::Start => {},
                Action::Point(coord) => {
                    before.lemma_after_point_wf(coord);
                },
            }
        }
    }

    /// The history grows by one entry with each stone placed, and by nothing
    /// else: whatever is done, the history as it was stays at the front, and
    /// its length is the number of stones placed.
    pub proof fn lemma_history_counts_placements(self, actions: Seq<Action>)
        ensures
            self.run(actions).history.len() == self.history.len() + self.placements(actions),
            self.run(actions).history.subrange(0, self.history.len() as int) == self.history,
        decreases actions.len(),
    {
        if actions.len() > 0 {
            self.lemma_history_counts_placements(actions.drop_last());
            let before = self.run(actions.drop_last());
            assert(self.run(actions).history.subrange(0, self.history.len() as int)
                =~= before.history.subrange(0, self.history.len() as int));
        } else {
            assert(self.history.subrange(0, self.history.len() as int) =~= self.history);
        }
    }

    /// Whatever is done to a game, its board keeps its size and every stone
    /// that lies on it.
    pub proof fn lemma_run_keeps_stones(self, actions: Seq<Action>, x: int, y: int)
        requires
            self.board.at(x, y) != BoardPieceType::EMPTY,
        ensures
            self.run(actions).board.size == self.board.size,
            self.run(actions).board.at(x, y) == self.board.at(x, y),
        decreases actions.len(),
    {
        if actions.len() > 0 {
            self.lemma_run_keeps_stones(actions.drop_last(), x, y);
        }
    }

    /// In a game played from the beginning, the stones on the board are as
    /// many as the stones placed, and while nobody has won, the seats take
    /// turns: after `n` stones it is the turn of seat `n mod 2`, and of the
    /// colour that goes with the seat.
    pub proof fn lemma_turns_alternate(size: nat, actions: Seq<Action>)
        ensures
            ({
                let game = GameModel::fresh(size).run(actions);
                let n = GameModel::fresh(size).placements(actions);
                &&& game.wf()
                &&& game.history.len() == n
                &&& game.board.stones.dom().len() == n
                &&& !game.ended ==> game.current_player == n % 2
                &&& !game.ended ==> game.active_piece() == slot_piece(n as int % 2)
                &&& game.ended ==> game.current_player == (n - 1) % 2
            }),
    {
        GameModel::lemma_fresh_wf(size);
        GameModel::fresh(size).lemma_run_wf(actions);
        GameModel::fresh(size).lemma_history_counts_placements(actions);
    }

    /// In a well-formed game, the game is over exactly when five stones of
    /// one colour lie in a row through the last stone placed; the winner is
    /// then the player who placed it, and holds the turn.
    pub proof fn lemma_ended_means_five(self)
        requires
            self.wf(),
        ensures
            self.ended == (self.history.len() > 0 && five_in_a_row(
                self.board,
                self.history.last().0.board_piece(),
                self.history.last().1.x as int,
                self.history.last().1.y as int,
            )),
            self.ended ==> self.active_piece() == self.history.last().0,
    {
        if self.history.len() > 0 {
            let last = self.history[self.history.len() - 1];
            lemma_completes_five(
                self.board,
                last.0.board_piece(),
                last.1.x as int,
                last.1.y as int,
            );
        }
    }

    /// A move that is accepted wins exactly when, with its stone on the
    /// board, five stones of its colour lie in a row through it; the winner
    /// is then the player who made it.
    pub proof fn lemma_point_wins(self, coord: CoordinationFlat)
        ensures
            self.point(coord) matches Ok(winner) ==> {
                &&& winner.is_some() == five_in_a_row(
                    self.after_point(coord).board,
                    self.active_piece().board_piece(),
                    coord.x as int,
                    coord.y as int,
                )
                &&& winner.is_some() ==> winner == Some(self.active_piece())
                &&& self.after_point(coord).ended == winner.is_some()
            },
    {
        if self.point(coord).is_ok() {
            lemma_completes_five(
                self.after_point(coord).board,
                self.active_piece().board_piece(),
                coord.x as int,
                coord.y as int,
            );
        }
    }

    /// A game in play accepts a stone on any empty cell of its board, and so
    /// every move that a machine offers.
    pub proof fn lemma_empty_cell_is_accepted(self, coord: CoordinationFlat)
        requires
            self.started,
            !self.ended,
            self.board.holds(BoardPieceType::EMPTY, (coord.x as int, coord.y as int)),
        ensures
            self.point(coord).is_ok(),
    {
    }

    /// A game that has not been started refuses every move, and so does a
    /// game that is over. A game in play refuses what its board refuses, for
    /// the board's reason. A move that is refused changes nothing.
    pub proof fn lemma_refusals(self, coord: CoordinationFlat)
        ensures
            !self.started ==> self.point(coord) == Err::<Option<PieceType>, GameError>(
                GameError::NotStarted,
            ),
            self.started && self.ended ==> self.point(coord) == Err::<
                Option<PieceType>,
                GameError,
            >(GameError::GameOver),
            self.started && !self.ended ==> match self.board.place(
                coord,
                self.active_piece().board_piece(),
            ) {
                Ok(_) => self.point(coord).is_ok(),
                Err(e) => self.point(coord) == Err::<Option<PieceType>, GameError>(
                    GameError::Board(e),
                ),
            },
            self.point(coord).is_err() ==> self.after_point(coord) == self,
    {
    }
}

/// A Gomoku game.
pub struct Game {
    board: Board,
    players: [Player; 2],
    current_player: usize,
    history: Vec<(PieceType, CoordinationFlat)>,
    started: bool,
    ended: bool,
}

impl View for Game {
    type V = GameModel;

    closed spec fn view(&self) -> GameModel {
        GameModel {
            board: self.board@,
            current_player: self.current_player as int,
            history: self.history@,
            started: self.started,
            ended: self.ended,
        }
    }
}

impl Game {
    /// The player in seat `slot`.
    pub closed spec fn player(&self, slot: int) -> Player {
        self.players[slot]
    }

    /// The game is in a state that play can lead to, and each player holds
    /// the colour of their seat. Every game that this module hands out is
    /// well formed, and every method keeps it so.
    pub closed spec fn wf(&self) -> bool {
        &&& self.board.wf()
        &&& self@.wf()
        &&& self.players[0].piece() == slot_piece(0)
        &&& self.players[1].piece() == slot_piece(1)
    }

    /// What well-formedness says in terms of the model and the seats.
    pub proof fn lemma_wf(&self)
        requires
            self.wf(),
        ensures
            self@.wf(),
            self.player(0).piece() == PieceType::BLACK,
            self.player(1).piece() == PieceType::WHITE,
    {
    }

    /// A new game on an empty board of the default size, with Black to move
    /// first.
    pub(crate) fn new(first_player: Player, second_player: Player) -> (game: Game)
        requires
            first_player.piece() == PieceType::BLACK,
            second_player.piece() == PieceType::WHITE,
        ensures
            game.wf(),
            game@ == GameModel::fresh(crate::board::DEFAULT_BOARD_SIZE as nat),
            game.player(0) == first_player,
            game.player(1) == second_player,
    {
        Game {
            board: Board::new(),
            current_player: 0,
            players: [first_player, second_player],
            history: Vec::new(),
            started: false,
            ended: false,
        }
    }

    /// A builder for a game, as `GameBuilder::new` makes it.
    pub fn game_builder() -> (builder: GameBuilder)
        ensures
            builder.first() == GameBuilderPlayerType::Human,
            builder.second() == GameBuilderPlayerType::Human,
    {
        GameBuilder::new()
    }

    /// Starts the game: from now on moves are accepted. Starting a game that
    /// has been started before changes nothing.
    pub fn start(&mut self)
        requires
            old(self).wf(),
        ensures
            final(self).wf(),
            final(self)@ == old(self)@.start(),
            final(self).player(0) == old(self).player(0),
            final(self).player(1) == old(self).player(1),
    {
        self.started = true;
    }

    /// Checks whether the game is over: whether the last stone placed
    /// completed five in a row.
    pub fn check_game_end(&self) -> (over: bool)
        requires
            self.wf(),
        ensures
            over == self@.last_wins(),
            over == self@.ended,
    {
        self.last_stone_wins()
    }

    /// The check behind `check_game_end`, for use in the middle of a move,
    /// when the stone is on the board and the turn has not yet been settled.
    fn last_stone_wins(&self) -> (over: bool)
        requires
            self.board.wf(),
        ensures
            over == self@.last_wins(),
    {
        let len = self.history.len();
        if len == 0 {
            return false;
        }
        let last_point = self.history[len - 1];
        let last_player_color = last_point.0.to_board_piece_type();
        let last_coordination = last_point.1;
        check_five(&self.board, last_player_color, last_coordination)
    }

    /// Places a stone of the player to move at `coord`.
    ///
    /// Answers with the winner if the stone ends the game, and with `None` if
    /// the game goes on.
    pub fn point(&mut self, coord: CoordinationFlat) -> (winner: Result<Option<PieceType>, GameError>)
        requires
            old(self).wf(),
        ensures
            final(self).wf(),
            winner == old(self)@.point(coord),
            final(self)@ == old(self)@.after_point(coord),
            final(self).player(0) == old(self).player(0),
            final(self).player(1) == old(self).player(1),
    {
        if !self.started {
            return Err(GameError::NotStarted);
        }
        if self.ended {
            return Err(GameError::GameOver);
        }
        let current_piece = self.get_current_player().piece_type();
        if let Err(e) = self.board.place(coord, current_piece.to_board_piece_type()) {
            return Err(GameError::Board(e));
        }
        self.history.push((current_piece, coord));
        let winner = if self.last_stone_wins() {
            self.ended = true;
            Some(current_piece)
        } else {
            self.change_to_another_player();
            None
        };
        proof {
            old(self)@.lemma_after_point_wf(coord);
            assert(self@.history =~= old(self)@.after_point(coord).history);
        }
        Ok(winner)
    }

    /// The player to move or, once the game has ended, the winner.
    pub fn get_current_player(&self) -> (player: &Player)
        requires
            self.wf(),
        ensures
            *player == self.player(self@.current_player),
            player.piece() == self@.active_piece(),
    {
        &self.players[self.current_player]
    }

    /// The player who is not to move or, once the game has ended, the loser.
    pub fn get_another_player(&self) -> (player: &Player)
        requires
            self.wf(),
        ensures
            *player == self.player(1 - self@.current_player),
            player.piece() == slot_piece(1 - self@.current_player),
    {
        if self.current_player == 0 {
            &self.players[1]
        } else {
            &self.players[0]
        }
    }

    /// Passes the turn to the other player, and answers with that player.
    fn change_to_another_player(&mut self) -> (player: &Player)
        requires
            old(self).current_player < 2,
        ensures
            final(self)@ == (GameModel {
                current_player: 1 - old(self)@.current_player,
                ..old(self)@
            }),
            final(self).board == old(self).board,
            final(self).players == old(self).players,
            *player == final(self).players[final(self).current_player as int],
    {
        if self.current_player == 0 {
            self.current_player = 1
        } else {
            self.current_player = 0
        }
        &self.players[self.current_player]
    }

    /// Asks the player to move for a move, and shows them a snapshot of the
    /// game for it. A machine answers with an empty cell of the board, which
    /// a game in play accepts, or with `None` where the board is full. A
    /// human answers `None`: the move is then to be read from the console.
    pub fn ask_current_player(&mut self) -> (coord: Option<CoordinationFlat>)
        requires
            old(self).wf(),
        ensures
            final(self).wf(),
            final(self)@ == old(self)@,
            coord matches Some(c) ==> old(self)@.board.holds(
                BoardPieceType::EMPTY,
                (c.x as int, c.y as int),
            ) && (old(self)@.started && !old(self)@.ended ==> old(self)@.point(c).is_ok()),
            old(self).player(old(self)@.current_player).points(
                old(self)@.board,
                coord,
                final(self).player(old(self)@.current_player),
            ),
            final(self).player(1 - old(self)@.current_player) == old(self).player(
                1 - old(self)@.current_player,
            ),
    {
        let context = self.context();
        self.players[self.current_player].point(&context)
    }

    /// A snapshot of the game for the player to move.
    pub fn context(&self) -> (context: GameContext)
        requires
            self.wf(),
        ensures
            context.board.wf(),
            context.board@ == self@.board,
            context.last_point == if self@.history.len() > 0 {
                Some(self@.history.last().1)
            } else {
                None
            },
            context.total_pieces == self@.history.len(),
    {
        let len = self.history.len();
        let last_point = if len > 0 {
            Some(self.history[len - 1].1)
        } else {
            None
        };
        GameContext::new(self.board.clone(), last_point, len)
    }

    /// The board as it stands.
    pub fn board(&self) -> (board: &Board)
        requires
            self.wf(),
        ensures
            board.wf(),
            board@ == self@.board,
    {
        &self.board
    }

    /// Every stone placed, in the order of play.
    pub fn history(&self) -> (history: &Vec<(PieceType, CoordinationFlat)>)
        ensures
            history@ == self@.history,
    {
        &self.history
    }

    /// The seat, 0 or 1, of the player to move or, once the game has ended,
    /// of the winner.
    pub fn current_player_index(&self) -> (slot: usize)
        ensures
            slot == self@.current_player,
    {
        self.current_player
    }

    pub fn is_started(&self) -> (started: bool)
        ensures
            started == self@.started,
    {
        self.started
    }

    pub fn is_ended(&self) -> (ended: bool)
        ensures
            ended == self@.ended,
    {
        self.ended
    }
}

} // verus!
