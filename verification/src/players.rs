//! The players: a human at the console and two simple machines.

use vstd::prelude::*;
use crate::board::{Board, BoardError, BoardModel, BoardPieceType};
use crate::context::GameContext;
use crate::coord::CoordinationFlat;
use crate::piece::PieceType;

verus! {

/// A human who types moves at the console. The typing happens outside this
/// library; this type only says which colour the human holds.
#[derive(Copy, Clone, Debug)]
pub struct LocalHumanPlayer {
    piece: PieceType,
}

impl LocalHumanPlayer {
    pub closed spec fn piece(&self) -> PieceType {
        self.piece
    }

    pub fn new(piece: PieceType) -> (player: LocalHumanPlayer)
        ensures
            player.piece() == piece,
    {
        LocalHumanPlayer { piece }
    }

    pub fn piece_type(&self) -> (piece: PieceType)
        ensures
            piece == self.piece(),
    {
        self.piece
    }

    pub fn name(&self) -> (name: &'static str)
        ensures
            name@ == "Human"@,
    {
        "Human"
    }
}

/// A machine that walks down a diagonal, one step each turn, for as long as
/// the diagonal leads to a free cell, and takes the first free cell of the
/// board when it does not. It serves to drive a game without a human.
#[derive(Copy, Clone, Debug)]
pub struct IdiotAi {
    piece: PieceType,
    last: CoordinationFlat,
}

impl IdiotAi {
    pub closed spec fn piece(&self) -> PieceType {
        self.piece
    }

    /// The point this player named last, or the point before its first.
    pub closed spec fn last(&self) -> CoordinationFlat {
        self.last
    }

    /// A player whose diagonal starts at `(num + 1, 1)`.
    pub fn new(piece: PieceType, num: usize) -> (player: IdiotAi)
        ensures
            player.piece() == piece,
            player.last() == (CoordinationFlat { x: num, y: 0 }),
    {
        IdiotAi { piece, last: CoordinationFlat::new(num, 0) }
    }

    /// The point that follows `last` on the diagonal, if a coordinate can hold
    /// it.
    pub open spec fn next(&self) -> Option<CoordinationFlat> {
        if self.last().x < usize::MAX && self.last().y < usize::MAX {
            Some(
                CoordinationFlat {
                    x: (self.last().x + 1) as usize,
                    y: (self.last().y + 1) as usize,
                },
            )
        } else {
            None
        }
    }

    /// What `point` answers on `board`: the next point of the diagonal where
    /// that is an empty cell of the board, else the first empty cell in
    /// reading order, and `None` where the board has no empty cell.
    pub open spec fn answers(&self, board: BoardModel, coord: Option<CoordinationFlat>) -> bool {
        match self.next() {
            Some(next) if board.holds(BoardPieceType::EMPTY, (next.x as int, next.y as int)) => coord
                == Some(next),
            _ => is_first_empty(board, coord),
        }
    }

    /// A legal move, if the board in `context` has room for one: the next
    /// point of the diagonal if a stone can be placed there, the first empty
    /// cell if not. The player walks on from the point it names; where it
    /// names none, it stays where it is.
    pub fn point(&mut self, context: &GameContext) -> (coord: Option<CoordinationFlat>)
        requires
            context.board.wf(),
        ensures
            old(self).answers(context.board@, coord),
            coord matches Some(c) ==> context.board@.holds(
                BoardPieceType::EMPTY,
                (c.x as int, c.y as int),
            ),
            coord is None ==> is_first_empty(context.board@, None),
            final(self).piece() == old(self).piece(),
            final(self).last() == match coord {
                Some(coord) => coord,
                None => old(self).last(),
            },
    {
        let mut coord: Option<CoordinationFlat> = None;
        if self.last.x < usize::MAX && self.last.y < usize::MAX {
            let next = CoordinationFlat::new(self.last.x + 1, self.last.y + 1);
            match context.board.get(next) {
                Ok(BoardPieceType::EMPTY) => {
                    coord = Some(next);
                },
                _ => {},
            }
        }
        if coord.is_none() {
            coord = EasyAi::first_empty(&context.board);
        }
        match coord {
            Some(coord) => {
                self.last = coord;
            },
            None => {},
        }
        coord
    }

    pub fn piece_type(&self) -> (piece: PieceType)
        ensures
            piece == self.piece(),
    {
        self.piece
    }

    pub fn name(&self) -> (name: &'static str)
        ensures
            name@ == "Idiot AI"@,
    {
        "Idiot AI"
    }
}

/// `p` comes before `q` when the board is read row by row: by `y` first, then
/// by `x`.
pub open spec fn reads_before(p: (int, int), q: (int, int)) -> bool {
    p.1 < q.1 || (p.1 == q.1 && p.0 < q.0)
}

/// `found` is the first empty cell of `board` in reading order, or `None`
/// where the board has no empty cell.
pub open spec fn is_first_empty(board: BoardModel, found: Option<CoordinationFlat>) -> bool {
    match found {
        Some(coord) => {
            &&& board.holds(BoardPieceType::EMPTY, (coord.x as int, coord.y as int))
            &&& forall|x: int, y: int|
                #![trigger board.at(x, y)]
                board.in_bounds(x, y) && reads_before((x, y), (coord.x as int, coord.y as int))
                    ==> board.at(x, y) != BoardPieceType::EMPTY
        },
        None => forall|x: int, y: int|
            #![trigger board.at(x, y)]
            board.in_bounds(x, y) ==> board.at(x, y) != BoardPieceType::EMPTY,
    }
}

/// The first empty cell is a legal move: the board takes any stone there.
pub proof fn lemma_first_empty_is_legal(
    board: BoardModel,
    coord: CoordinationFlat,
    point: BoardPieceType,
)
    requires
        is_first_empty(board, Some(coord)),
    ensures
        board.contains(coord),
        board.place(coord, point) == Ok::<BoardPieceType, BoardError>(point),
{
}

/// A machine that always names a legal move while there is one. Its strategy
/// is the simplest that does so, and is meant to be replaced: it takes the
/// first empty cell in reading order.
#[derive(Copy, Clone, Debug)]
pub struct EasyAi {
    piece: PieceType,
}

impl EasyAi {
    pub closed spec fn piece(&self) -> PieceType {
        self.piece
    }

    pub fn new(piece: PieceType) -> (player: EasyAi)
        ensures
            player.piece() == piece,
    {
        EasyAi { piece }
    }

    /// The first empty cell of `board` in reading order.
    pub fn first_empty(board: &Board) -> (found: Option<CoordinationFlat>)
        requires
            board.wf(),
        ensures
            is_first_empty(board@, found),
    {
        let size = board.size();
        proof {
            board.lemma_size_bound();
        }
        let mut y: usize = 1;
        while y <= size
            invariant
                board.wf(),
                size == board@.size,
                size < usize::MAX,
                1 <= y <= size + 1,
                forall|a: int, b: int|
                    #![trigger board@.at(a, b)]
                    board@.in_bounds(a, b) && b < y ==> board@.at(a, b) != BoardPieceType::EMPTY,
            decreases size + 1 - y,
        {
            let mut x: usize = 1;
            while x <= size
                invariant
                    board.wf(),
                    size == board@.size,
                    size < usize::MAX,
                    1 <= y <= size,
                    1 <= x <= size + 1,
                    forall|a: int, b: int|
                        #![trigger board@.at(a, b)]
                        board@.in_bounds(a, b) && reads_before((a, b), (x as int, y as int))
                            ==> board@.at(a, b) != BoardPieceType::EMPTY,
                decreases size + 1 - x,
            {
                let coord = CoordinationFlat::new(x, y);
                match board.get(coord) {
                    Ok(BoardPieceType::EMPTY) => {
                        return Some(coord);
                    },
                    _ => {},
                }
                x = x + 1;
            }
            y = y + 1;
        }
        None
    }

    /// A legal move, if the board in `context` has room for one.
    pub fn point(&mut self, context: &GameContext) -> (coord: Option<CoordinationFlat>)
        requires
            context.board.wf(),
        ensures
            *final(self) == *old(self),
            is_first_empty(context.board@, coord),
    {
        EasyAi::first_empty(&context.board)
    }

    pub fn piece_type(&self) -> (piece: PieceType)
        ensures
            piece == self.piece(),
    {
        self.piece
    }

    pub fn name(&self) -> (name: &'static str)
        ensures
            name@ == "Easy AI"@,
    {
        "Easy AI"
    }
}

/// One of the two seats at the board, with whoever sits there.
#[derive(Copy, Clone, Debug)]
pub enum Player {
    Human(LocalHumanPlayer),
    IdiotAi(IdiotAi),
    EasyAi(EasyAi),
}

impl Player {
    /// The colour this player holds.
    pub open spec fn piece(&self) -> PieceType {
        match self {
            Player::Human(player) => player.piece(),
            Player::IdiotAi(player) => player.piece(),
            Player::EasyAi(player) => player.piece(),
        }
    }

    /// What `point` answers and what it leaves of the player `after` it.
    pub open spec fn points(&self, board: BoardModel, coord: Option<CoordinationFlat>, after: Player) -> bool {
        match self {
            Player::Human(_) => coord.is_none() && after == *self,
            Player::IdiotAi(player) => {
                &&& player.answers(board, coord)
                &&& after matches Player::IdiotAi(moved)
                &&& moved.piece() == player.piece()
                &&& moved.last() == match coord {
                    Some(coord) => coord,
                    None => player.last(),
                }
            },
            Player::EasyAi(_) => is_first_empty(board, coord) && after == *self,
        }
    }

    /// Asks the player for a move. A machine answers with a legal move, or
    /// with `None` where the board has no empty cell. A human always answers
    /// `None`: the move is then to be read from the console.
    pub fn point(&mut self, context: &GameContext) -> (coord: Option<CoordinationFlat>)
        requires
            context.board.wf(),
        ensures
            old(self).points(context.board@, coord, *final(self)),
            final(self).piece() == old(self).piece(),
            coord matches Some(c) ==> context.board@.holds(
                BoardPieceType::EMPTY,
                (c.x as int, c.y as int),
            ),
            coord is None && !(*old(self) is Human) ==> is_first_empty(context.board@, None),
    {
        match self {
            Player::Human(_) => None,
            Player::IdiotAi(player) => player.point(context),
            Player::EasyAi(player) => player.point(context),
        }
    }

    /// Whether the player's moves come from the console.
    pub fn is_human(&self) -> (human: bool)
        ensures
            human == (*self is Human),
    {
        match self {
            Player::Human(_) => true,
            _ => false,
        }
    }

    pub fn piece_type(&self) -> (piece: PieceType)
        ensures
            piece == self.piece(),
    {
        match self {
            Player::Human(player) => player.piece_type(),
            Player::IdiotAi(player) => player.piece_type(),
            Player::EasyAi(player) => player.piece_type(),
        }
    }

    pub fn name(&self) -> (name: &'static str)
        ensures
            *self is Human ==> name@ == "Human"@,
            *self is IdiotAi ==> name@ == "Idiot AI"@,
            *self is EasyAi ==> name@ == "Easy AI"@,
    {
        match self {
            Player::Human(player) => player.name(),
            Player::IdiotAi(player) => player.name(),
            Player::EasyAi(player) => player.name(),
        }
    }
}

} // verus!
