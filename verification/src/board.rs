//! The grid: what each cell holds, and the one way to change a cell.

use vstd::prelude::*;
use vstd::string::StringExecFns;
use crate::coord::CoordinationFlat;
use crate::piece::PieceType;

verus! {

/// Side length of the board that `Board::new` makes.
pub const DEFAULT_BOARD_SIZE: usize = 19;

/// What a cell holds.
#[derive(Copy, Clone, PartialEq, Eq, Structural, Debug)]
pub enum BoardPieceType {
    EMPTY,
    BLACK,
    WHITE,
}

impl BoardPieceType {
    /// The colour of the stone in the cell, if there is one.
    pub open spec fn piece(self) -> Option<PieceType> {
        match self {
            BoardPieceType::EMPTY => None,
            BoardPieceType::BLACK => Some(PieceType::BLACK),
            BoardPieceType::WHITE => Some(PieceType::WHITE),
        }
    }

    pub fn to_piece_type(&self) -> (piece: Option<PieceType>)
        ensures
            piece == self.piece(),
    {
        match self {
            BoardPieceType::EMPTY => None,
            BoardPieceType::BLACK => Some(PieceType::BLACK),
            BoardPieceType::WHITE => Some(PieceType::WHITE),
        }
    }
}

/// Why a query or a placement was refused.
#[derive(Copy, Clone, PartialEq, Eq, Structural, Debug)]
pub enum BoardError {
    /// The coordinate is not on the board.
    OutOfBounds,
    /// The cell already holds a stone of the given colour.
    Occupied(PieceType),
}

/// The board as a mathematical object: its side length and the stones on it,
/// keyed by their 1-based `(x, y)`. A cell without an entry is empty.
pub struct BoardModel {
    pub size: nat,
    pub stones: Map<(int, int), PieceType>,
}

impl BoardModel {
    pub open spec fn empty(size: nat) -> BoardModel {
        BoardModel { size, stones: Map::empty() }
    }

    pub open spec fn in_bounds(self, x: int, y: int) -> bool {
        1 <= x <= self.size && 1 <= y <= self.size
    }

    pub open spec fn contains(self, coord: CoordinationFlat) -> bool {
        self.in_bounds(coord.x as int, coord.y as int)
    }

    /// Every stone lies on the board.
    pub open spec fn wf(self) -> bool {
        forall|x: int, y: int| #[trigger] self.stones.dom().contains((x, y)) ==> self.in_bounds(x, y)
    }

    /// The cell at `p` is on the board and holds `cell`.
    pub open spec fn holds(self, cell: BoardPieceType, p: (int, int)) -> bool {
        self.in_bounds(p.0, p.1) && self.at(p.0, p.1) == cell
    }

    pub open spec fn at(self, x: int, y: int) -> BoardPieceType {
        if self.stones.dom().contains((x, y)) {
            self.stones[(x, y)].board_piece()
        } else {
            BoardPieceType::EMPTY
        }
    }

    pub open spec fn get(self, coord: CoordinationFlat) -> Result<BoardPieceType, BoardError> {
        if self.contains(coord) {
            Ok(self.at(coord.x as int, coord.y as int))
        } else {
            Err(BoardError::OutOfBounds)
        }
    }

    /// The first `n` cells of row `y` as they are drawn, from left to right.
    pub open spec fn row_symbols(self, y: int, n: int) -> Seq<char>
        decreases n,
    {
        if n <= 0 {
            Seq::empty()
        } else {
            self.row_symbols(y, n - 1) + board_symbol(self.at(n, y))
        }
    }

    /// What `Board::place` answers.
    pub open spec fn place(self, coord: CoordinationFlat, point: BoardPieceType) -> Result<
        BoardPieceType,
        BoardError,
    > {
        if !self.contains(coord) {
            Err(BoardError::OutOfBounds)
        } else if self.stones.dom().contains((coord.x as int, coord.y as int)) {
            Err(BoardError::Occupied(self.stones[(coord.x as int, coord.y as int)]))
        } else {
            Ok(point)
        }
    }

    /// The board that `Board::place` leaves behind: changed in one cell where
    /// the placement is accepted, and untouched where it is refused.
    pub open spec fn after_place(self, coord: CoordinationFlat, point: BoardPieceType) -> BoardModel {
        match (self.place(coord, point), point.piece()) {
            (Ok(_), Some(piece)) => BoardModel {
                size: self.size,
                stones: self.stones.insert((coord.x as int, coord.y as int), piece),
            },
            _ => self,
        }
    }
}

/// Off the board nothing can be read and nothing can be placed, and the
/// attempt leaves the board as it was.
pub proof fn lemma_outside_is_refused(
    board: BoardModel,
    coord: CoordinationFlat,
    point: BoardPieceType,
)
    requires
        !board.contains(coord),
    ensures
        board.get(coord) == Err::<BoardPieceType, BoardError>(BoardError::OutOfBounds),
        board.place(coord, point) == Err::<BoardPieceType, BoardError>(BoardError::OutOfBounds),
        board.after_place(coord, point) == board,
{
}

/// On the board every cell can be read, and an empty cell takes any stone.
pub proof fn lemma_inside_is_served(board: BoardModel, coord: CoordinationFlat, point: BoardPieceType)
    requires
        board.contains(coord),
    ensures
        board.get(coord) == Ok::<BoardPieceType, BoardError>(
            board.at(coord.x as int, coord.y as int),
        ),
        board.get(coord) == Ok::<BoardPieceType, BoardError>(BoardPieceType::EMPTY) ==> board.place(
            coord,
            point,
        ) == Ok::<BoardPieceType, BoardError>(point),
{
}

/// A cell takes a stone once. After a stone has been offered to a cell of
/// the board, the cell holds a stone, the one offered if the cell was empty,
/// and whatever is offered next is refused with the colour of the stone
/// that lies there, which stays.
pub proof fn lemma_placed_once(
    board: BoardModel,
    coord: CoordinationFlat,
    first: BoardPieceType,
    second: BoardPieceType,
)
    requires
        board.contains(coord),
        first != BoardPieceType::EMPTY,
    ensures
        ({
            let after = board.after_place(coord, first);
            let there = after.at(coord.x as int, coord.y as int);
            &&& there != BoardPieceType::EMPTY
            &&& board.place(coord, first).is_ok() ==> there == first
            &&& board.place(coord, first).is_err() ==> there == board.at(
                coord.x as int,
                coord.y as int,
            )
            &&& after.place(coord, second) == Err::<BoardPieceType, BoardError>(
                BoardError::Occupied(there.piece().unwrap()),
            )
            &&& after.after_place(coord, second) == after
            &&& after.after_place(coord, second).get(coord) == Ok::<BoardPieceType, BoardError>(
                there,
            )
        }),
{
}

/// A placement changes no cell but the one it names, and keeps the stones
/// within the board.
pub proof fn lemma_place_elsewhere(
    board: BoardModel,
    coord: CoordinationFlat,
    point: BoardPieceType,
    x: int,
    y: int,
)
    requires
        (x, y) != (coord.x as int, coord.y as int),
    ensures
        board.after_place(coord, point).at(x, y) == board.at(x, y),
        board.after_place(coord, point).size == board.size,
        board.wf() ==> board.after_place(coord, point).wf(),
{
}

/// A stone, once on the board, stays where it is and what it is: no
/// placement, accepted or refused, changes a cell that holds a stone.
pub proof fn lemma_stones_stay(
    board: BoardModel,
    coord: CoordinationFlat,
    point: BoardPieceType,
    x: int,
    y: int,
)
    requires
        board.at(x, y) != BoardPieceType::EMPTY,
    ensures
        board.after_place(coord, point).at(x, y) == board.at(x, y),
{
}

/// The name of what a cell holds, for messages.
pub fn translate_board_point(target: BoardPieceType) -> (name: &'static str)
    ensures
        name@ == match target {
            BoardPieceType::EMPTY => "Empty"@,
            BoardPieceType::WHITE => "White"@,
            BoardPieceType::BLACK => "Black"@,
        },
{
    match target {
        BoardPieceType::EMPTY => "Empty",
        BoardPieceType::WHITE => "White",
        BoardPieceType::BLACK => "Black",
    }
}

/// The two characters that show a cell on the console.
pub open spec fn board_symbol(cell: BoardPieceType) -> Seq<char> {
    match cell {
        BoardPieceType::WHITE => " O"@,
        BoardPieceType::BLACK => " X"@,
        BoardPieceType::EMPTY => " -"@,
    }
}

/// The letter above column `i` of the drawn board, counted from 0: `A` for
/// the first column, up to `Z` for the 26th. Further columns have none.
pub open spec fn label_of_column(i: usize) -> Option<char> {
    if i < 26 {
        Some(('A' as u8 + i) as u8 as char)
    } else {
        None
    }
}

/// The letter above column `i` of the drawn board, counted from 0.
pub fn column_label(i: usize) -> (label: Option<char>)
    ensures
        label == label_of_column(i),
{
    if i < 26 {
        Some(('A' as u8 + i as u8) as char)
    } else {
        None
    }
}

/// A square Gomoku board.
///
/// <pre>
///                     x(i)
/// ---------------------->
/// | / 1 2 3 4 5 6 7 8 9
/// | 1 + + + + + + + + +
/// | 2 + + + + + + + + +
/// | 3 + + + + + + + + +
/// v
/// y(j)
/// </pre>
pub struct Board {
    /// Cell `(x, y)` is stored at index `(x - 1) * size + (y - 1)`.
    board: Vec<BoardPieceType>,
    size: usize,
}

impl View for Board {
    type V = BoardModel;

    closed spec fn view(&self) -> BoardModel {
        BoardModel {
            size: self.size as nat,
            stones: Map::new(
                |p: (int, int)|
                    1 <= p.0 <= self.size && 1 <= p.1 <= self.size
                        && self.board@[Self::index_of(self.size as int, p.0, p.1)]
                        != BoardPieceType::EMPTY,
                |p: (int, int)|
                    self.board@[Self::index_of(self.size as int, p.0, p.1)].piece().unwrap(),
            ),
        }
    }
}

impl Board {
    /// The storage holds one cell for each point of the grid. Every board that
    /// this module hands out is well formed, and every method keeps it so.
    pub closed spec fn wf(&self) -> bool {
        self.board.len() == self.size * self.size
    }

    /// The stones of any board lie within its bounds.
    pub proof fn lemma_view_wf(&self)
        ensures
            self@.wf(),
    {
    }

    /// A well-formed board is small enough for a walk across it, there and
    /// back, to be counted in a `usize`.
    pub proof fn lemma_size_bound(&self)
        requires
            self.wf(),
        ensures
            1 + 2 * self@.size <= usize::MAX,
    {
        let size = self.size as int;
        if size >= 3 {
            assert(size * size >= 2 * size + 1) by (nonlinear_arith)
                requires
                    size >= 3,
            ;
        }
    }

    closed spec fn index_of(size: int, x: int, y: int) -> int {
        (x - 1) * size + (y - 1)
    }

    proof fn lemma_index_of(size: int, x: int, y: int)
        requires
            1 <= x <= size,
            1 <= y <= size,
        ensures
            0 <= Self::index_of(size, x, y) < size * size,
    {
        assert(0 <= (x - 1) * size <= (size - 1) * size) by (nonlinear_arith)
            requires
                1 <= x <= size,
        ;
        assert((size - 1) * size + size == size * size) by (nonlinear_arith);
    }

    proof fn lemma_index_of_injective(size: int, x1: int, y1: int, x2: int, y2: int)
        requires
            1 <= x1 <= size,
            1 <= y1 <= size,
            1 <= x2 <= size,
            1 <= y2 <= size,
            Self::index_of(size, x1, y1) == Self::index_of(size, x2, y2),
        ensures
            x1 == x2,
            y1 == y2,
    {
        if x1 < x2 {
            assert((x2 - 1) * size >= (x1 - 1) * size + size) by (nonlinear_arith)
                requires
                    x1 < x2,
                    size >= 1,
            ;
        } else if x2 < x1 {
            assert((x1 - 1) * size >= (x2 - 1) * size + size) by (nonlinear_arith)
                requires
                    x2 < x1,
                    size >= 1,
            ;
        }
    }

    /// An empty board of the default size.
    pub fn new() -> (board: Board)
        ensures
            board.wf(),
            board@ == BoardModel::empty(DEFAULT_BOARD_SIZE as nat),
    {
        Board::with_size(DEFAULT_BOARD_SIZE)
    }

    /// An empty board with `size` cells on each side. The cells are kept in
    /// one vector, which can hold `isize::MAX` of them at most.
    pub fn with_size(size: usize) -> (board: Board)
        requires
            size * size <= isize::MAX,
        ensures
            board.wf(),
            board@ == BoardModel::empty(size as nat),
    {
        let board = Board { board: vec![BoardPieceType::EMPTY; size * size], size };
        assert(board@.stones =~= Map::<(int, int), PieceType>::empty()) by {
            assert forall|p: (int, int)| !(#[trigger] board@.stones.dom().contains(p)) by {
                if 1 <= p.0 <= size && 1 <= p.1 <= size {
                    Self::lemma_index_of(size as int, p.0, p.1);
                }
            }
        }
        board
    }

    /// The number of cells along each side.
    pub fn size(&self) -> (size: usize)
        ensures
            size == self@.size,
    {
        self.size
    }

    /// Whether `coord` names a cell of this board.
    pub fn point_range_check(&self, coord: CoordinationFlat) -> (inside: bool)
        ensures
            inside == self@.contains(coord),
    {
        let (x, y) = (coord.x, coord.y);
        if x > self.size || x <= 0 {
            return false;
        }
        if y > self.size || y <= 0 {
            return false;
        }
        true
    }

    /// What the cell at `coord` holds.
    pub fn get(&self, coord: CoordinationFlat) -> (cell: Result<BoardPieceType, BoardError>)
        requires
            self.wf(),
        ensures
            cell == self@.get(coord),
    {
        if !self.point_range_check(coord) {
            return Err(BoardError::OutOfBounds);
        }
        let at = self.offset(coord);
        Ok(self.board[at])
    }

    /// Puts `point` on the cell at `coord` if the cell is on the board and
    /// empty, and answers with what was placed. A refused placement leaves the
    /// board as it was.
    pub fn place(&mut self, coord: CoordinationFlat, point: BoardPieceType) -> (placed: Result<
        BoardPieceType,
        BoardError,
    >)
        requires
            old(self).wf(),
        ensures
            final(self).wf(),
            placed == old(self)@.place(coord, point),
            final(self)@ == old(self)@.after_place(coord, point),
    {
        let current_point = match self.get(coord) {
            Ok(ok) => ok,
            Err(e) => return Err(e),
        };
        if let Some(piece) = current_point.to_piece_type() {
            return Err(BoardError::Occupied(piece));
        }
        let at = self.offset(coord);
        self.board.set(at, point);
        proof {
            let size = self.size as int;
            let (x, y) = (coord.x as int, coord.y as int);
            let expected = old(self)@.after_place(coord, point);
            assert forall|p: (int, int)| 1 <= p.0 <= size && 1 <= p.1 <= size && p != (x, y)
                implies self.board@[#[trigger] Self::index_of(size, p.0, p.1)] == old(
                self,
            ).board@[Self::index_of(size, p.0, p.1)] by {
                Self::lemma_index_of(size, p.0, p.1);
                if Self::index_of(size, p.0, p.1) == at {
                    Self::lemma_index_of_injective(size, p.0, p.1, x, y);
                }
            }
            assert(self@.stones =~= expected.stones);
        }
        Ok(point)
    }

    /// The symbol that shows the cell in column `i` of row `j`, both counted
    /// from 0.
    pub fn get_board_symbol(&self, i: usize, j: usize) -> (symbol: &'static str)
        requires
            self.wf(),
            i < self@.size,
            j < self@.size,
        ensures
            symbol@ == board_symbol(self@.at(i + 1, j + 1)),
    {
        let coord = CoordinationFlat::new(i + 1, j + 1);
        let data = self.board[self.offset(coord)];
        match data {
            BoardPieceType::WHITE => " O",
            BoardPieceType::BLACK => " X",
            BoardPieceType::EMPTY => " -",
        }
    }

    /// Row `j` of the drawn board, counted from 0: the symbols of its cells
    /// from left to right.
    pub fn draw_row(&self, j: usize) -> (row: String)
        requires
            self.wf(),
            j < self@.size,
        ensures
            row@ == self@.row_symbols(j + 1, self@.size as int),
    {
        let mut row = String::new();
        let mut i: usize = 0;
        while i < self.size
            invariant
                self.wf(),
                j < self@.size,
                self@.size == self.size,
                i <= self.size,
                row@ == self@.row_symbols(j + 1, i as int),
            decreases self.size - i,
        {
            row.append(self.get_board_symbol(i, j));
            i = i + 1;
        }
        row
    }

    /// Where the cell at `coord` is stored.
    fn offset(&self, coord: CoordinationFlat) -> (at: usize)
        requires
            self.wf(),
            self@.contains(coord),
        ensures
            at == Self::index_of(self.size as int, coord.x as int, coord.y as int),
            at < self.board@.len(),
    {
        proof {
            Self::lemma_index_of(self.size as int, coord.x as int, coord.y as int);
        }
        let i = coord.x - 1;
        let j = coord.y - 1;
        assert(0 <= i * self.size <= (self.size - 1) * self.size) by (nonlinear_arith)
            requires
                0 <= i <= self.size - 1,
        ;
        assert((self.size - 1) * self.size + self.size == self.size * self.size)
            by (nonlinear_arith);
        i * self.size + j
    }
}

impl Clone for Board {
    /// A copy that shares nothing with the board it was made from.
    fn clone(&self) -> (copy: Self)
        ensures
            copy@ == self@,
            self.wf() ==> copy.wf(),
    {
        let copy = Board { board: self.board.clone(), size: self.size };
        assert(copy.board@ =~= self.board@);
        copy
    }
}

} // verus!
