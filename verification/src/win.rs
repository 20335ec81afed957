//! Win detection: whether a stone completes five in a row.

use vstd::prelude::*;
use crate::board::{Board, BoardModel, BoardPieceType};
use crate::coord::CoordinationFlat;

verus! {

/// The four lines through a point, each named with the step `(dx, dy)` that
/// leads forward along it.
#[derive(Copy, Clone, PartialEq, Eq, Structural, Debug)]
pub enum Axis {
    /// `(0, 1)`
    Horizontal,
    /// `(1, 1)`
    Diagonal,
    /// `(1, 0)`
    Vertical,
    /// `(1, -1)`
    AntiDiagonal,
}

/// The point `k` steps from `(x, y)` along `axis`; a negative `k` leads
/// backward.
pub open spec fn walk(x: int, y: int, axis: Axis, k: int) -> (int, int) {
    match axis {
        Axis::Horizontal => (x, y + k),
        Axis::Diagonal => (x + k, y + k),
        Axis::Vertical => (x + k, y),
        Axis::AntiDiagonal => (x + k, y - k),
    }
}

/// The coordinate at `p`, if a coordinate can hold it.
pub open spec fn coordinate_at(p: (int, int)) -> Option<CoordinationFlat> {
    if 0 <= p.0 <= usize::MAX && 0 <= p.1 <= usize::MAX {
        Some(CoordinationFlat { x: p.0 as usize, y: p.1 as usize })
    } else {
        None
    }
}

/// Every point from step `from` to step `to` along `axis`, the origin
/// `(x, y)` itself left aside, is on the board and holds `color`.
pub open spec fn line_filled(
    board: BoardModel,
    color: BoardPieceType,
    x: int,
    y: int,
    axis: Axis,
    from: int,
    to: int,
) -> bool {
    forall|k: int| from <= k <= to && k != 0 ==> board.holds(color, #[trigger] walk(x, y, axis, k))
}

/// Some five points in a row along `axis`, `(x, y)` among them, hold `color`
/// as soon as `(x, y)` does.
pub open spec fn completes_five_on(
    board: BoardModel,
    color: BoardPieceType,
    x: int,
    y: int,
    axis: Axis,
) -> bool {
    exists|start: int|
        -4 <= start <= 0 && #[trigger] line_filled(board, color, x, y, axis, start, start + 4)
}

/// A stone of `color` at `(x, y)` completes five in a row along one of the
/// four axes.
pub open spec fn completes_five(board: BoardModel, color: BoardPieceType, x: int, y: int) -> bool {
    ||| completes_five_on(board, color, x, y, Axis::Horizontal)
    ||| completes_five_on(board, color, x, y, Axis::Diagonal)
    ||| completes_five_on(board, color, x, y, Axis::Vertical)
    ||| completes_five_on(board, color, x, y, Axis::AntiDiagonal)
}

/// Every point from step `from` to step `to` along `axis` is on the board and
/// holds `color`.
pub open spec fn run_filled(
    board: BoardModel,
    color: BoardPieceType,
    x: int,
    y: int,
    axis: Axis,
    from: int,
    to: int,
) -> bool {
    forall|k: int| from <= k <= to ==> board.holds(color, #[trigger] walk(x, y, axis, k))
}

/// Five points or more in a row along `axis`, `(x, y)` among them, hold
/// `color`.
pub open spec fn five_in_a_row_on(
    board: BoardModel,
    color: BoardPieceType,
    x: int,
    y: int,
    axis: Axis,
) -> bool {
    exists|from: int, to: int|
        from <= 0 <= to && to - from + 1 >= 5 && #[trigger] run_filled(
            board,
            color,
            x,
            y,
            axis,
            from,
            to,
        )
}

/// Five points or more in a row through `(x, y)`, along one of the four
/// axes, hold `color`.
pub open spec fn five_in_a_row(board: BoardModel, color: BoardPieceType, x: int, y: int) -> bool {
    ||| five_in_a_row_on(board, color, x, y, Axis::Horizontal)
    ||| five_in_a_row_on(board, color, x, y, Axis::Diagonal)
    ||| five_in_a_row_on(board, color, x, y, Axis::Vertical)
    ||| five_in_a_row_on(board, color, x, y, Axis::AntiDiagonal)
}

/// Where the stone lies on the board, it completes five in a row exactly
/// when five or more in a row through it are there, along the same axis.
pub proof fn lemma_completes_five_on(
    board: BoardModel,
    color: BoardPieceType,
    x: int,
    y: int,
    axis: Axis,
)
    requires
        board.holds(color, (x, y)),
    ensures
        completes_five_on(board, color, x, y, axis) == five_in_a_row_on(board, color, x, y, axis),
{
    assert(walk(x, y, axis, 0) == (x, y));
    if completes_five_on(board, color, x, y, axis) {
        let start = choose|start: int|
            -4 <= start <= 0 && #[trigger] line_filled(board, color, x, y, axis, start, start + 4);
        assert(run_filled(board, color, x, y, axis, start, start + 4));
    }
    if five_in_a_row_on(board, color, x, y, axis) {
        let (from, to) = choose|from: int, to: int|
            from <= 0 <= to && to - from + 1 >= 5 && #[trigger] run_filled(
                board,
                color,
                x,
                y,
                axis,
                from,
                to,
            );
        let start = if from >= -4 {
            from
        } else {
            -4
        };
        assert(line_filled(board, color, x, y, axis, start, start + 4));
    }
}

/// Where the stone lies on the board, it completes five in a row exactly
/// when five or more in a row through it are there.
pub proof fn lemma_completes_five(board: BoardModel, color: BoardPieceType, x: int, y: int)
    requires
        board.holds(color, (x, y)),
    ensures
        completes_five(board, color, x, y) == five_in_a_row(board, color, x, y),
{
    lemma_completes_five_on(board, color, x, y, Axis::Horizontal);
    lemma_completes_five_on(board, color, x, y, Axis::Diagonal);
    lemma_completes_five_on(board, color, x, y, Axis::Vertical);
    lemma_completes_five_on(board, color, x, y, Axis::AntiDiagonal);
}

/// `n` steps, forward or backward.
pub open spec fn toward(forward: bool, n: int) -> int {
    if forward {
        n
    } else {
        -n
    }
}

/// The run of `color` that leaves `(x, y)` along `axis` in one direction is
/// exactly `n` stones long: the first `n` points hold `color`, and the next
/// one does not.
pub open spec fn is_run_length(
    board: BoardModel,
    color: BoardPieceType,
    x: int,
    y: int,
    axis: Axis,
    forward: bool,
    n: int,
) -> bool {
    &&& 0 <= n
    &&& forall|k: int|
        1 <= k <= n ==> board.holds(color, #[trigger] walk(x, y, axis, toward(forward, k)))
    &&& !board.holds(color, walk(x, y, axis, toward(forward, n + 1)))
}

/// One step forward from `coord` along `axis`.
pub fn move_dir(coord: &CoordinationFlat, axis: Axis) -> (next: Option<CoordinationFlat>)
    ensures
        next == coordinate_at(walk(coord.x as int, coord.y as int, axis, 1)),
{
    match axis {
        Axis::Horizontal => match coord.y.checked_add(1) {
            Some(y) => Some(CoordinationFlat::new(coord.x, y)),
            None => None,
        },
        Axis::Diagonal => match (coord.x.checked_add(1), coord.y.checked_add(1)) {
            (Some(x), Some(y)) => Some(CoordinationFlat::new(x, y)),
            _ => None,
        },
        Axis::Vertical => match coord.x.checked_add(1) {
            Some(x) => Some(CoordinationFlat::new(x, coord.y)),
            None => None,
        },
        Axis::AntiDiagonal => match (coord.x.checked_add(1), coord.y.checked_sub(1)) {
            (Some(x), Some(y)) => Some(CoordinationFlat::new(x, y)),
            _ => None,
        },
    }
}

/// One step backward from `coord` along `axis`.
pub fn move_dir_reverse(coord: &CoordinationFlat, axis: Axis) -> (next: Option<CoordinationFlat>)
    ensures
        next == coordinate_at(walk(coord.x as int, coord.y as int, axis, -1)),
{
    match axis {
        Axis::Horizontal => match coord.y.checked_sub(1) {
            Some(y) => Some(CoordinationFlat::new(coord.x, y)),
            None => None,
        },
        Axis::Diagonal => match (coord.x.checked_sub(1), coord.y.checked_sub(1)) {
            (Some(x), Some(y)) => Some(CoordinationFlat::new(x, y)),
            _ => None,
        },
        Axis::Vertical => match coord.x.checked_sub(1) {
            Some(x) => Some(CoordinationFlat::new(x, coord.y)),
            None => None,
        },
        Axis::AntiDiagonal => match (coord.x.checked_sub(1), coord.y.checked_add(1)) {
            (Some(x), Some(y)) => Some(CoordinationFlat::new(x, y)),
            _ => None,
        },
    }
}

/// Counts the stones of `color` that follow `from` along `axis` in one
/// direction without a gap. The walk ends at the first point that is off the
/// board or does not hold `color`.
pub fn count_run(
    board: &Board,
    color: BoardPieceType,
    from: CoordinationFlat,
    axis: Axis,
    forward: bool,
) -> (n: usize)
    requires
        board.wf(),
    ensures
        n <= board@.size,
        is_run_length(board@, color, from.x as int, from.y as int, axis, forward, n as int),
{
    let ghost x = from.x as int;
    let ghost y = from.y as int;
    let mut n: usize = 0;
    let mut cur = from;
    proof {
        board.lemma_size_bound();
    }
    loop
        invariant
            board.wf(),
            x == from.x,
            y == from.y,
            n <= board@.size <= usize::MAX,
            (cur.x as int, cur.y as int) == walk(x, y, axis, toward(forward, n as int)),
            forall|k: int|
                1 <= k <= n ==> board@.holds(color, #[trigger] walk(x, y, axis, toward(forward, k))),
        ensures
            n <= board@.size,
            is_run_length(board@, color, x, y, axis, forward, n as int),
        decreases board@.size - n,
    {
        let next = if forward {
            move_dir(&cur, axis)
        } else {
            move_dir_reverse(&cur, axis)
        };
        let next = match next {
            Some(next) => next,
            None => {
                break ;
            },
        };
        match board.get(next) {
            Ok(cell) if cell == color => {},
            _ => {
                break ;
            },
        }
        proof {
            let step = toward(forward, n + 1);
            assert((next.x as int, next.y as int) == walk(x, y, axis, step));
            assert(board@.holds(color, walk(x, y, axis, step)));
            assert(board@.holds(color, walk(x, y, axis, toward(forward, 1))));
        }
        n = n + 1;
        cur = next;
    }
    n
}

/// A run of `fwd` stones ahead and `bwd` stones behind, with the stone at the
/// origin between them, spans five points exactly when some five in a row
/// through the origin are filled.
pub proof fn lemma_runs_decide(
    board: BoardModel,
    color: BoardPieceType,
    x: int,
    y: int,
    axis: Axis,
    fwd: int,
    bwd: int,
)
    requires
        is_run_length(board, color, x, y, axis, true, fwd),
        is_run_length(board, color, x, y, axis, false, bwd),
    ensures
        (1 + fwd + bwd >= 5) == completes_five_on(board, color, x, y, axis),
{
    if 1 + fwd + bwd >= 5 {
        let start = if bwd >= 4 {
            -4
        } else {
            -bwd
        };
        assert forall|k: int| start <= k <= start + 4 && k != 0 implies board.holds(
            color,
            #[trigger] walk(x, y, axis, k),
        ) by {
            if k > 0 {
                assert(walk(x, y, axis, k) == walk(x, y, axis, toward(true, k)));
            } else {
                assert(walk(x, y, axis, k) == walk(x, y, axis, toward(false, -k)));
            }
        }
        assert(line_filled(board, color, x, y, axis, start, start + 4));
    } else if completes_five_on(board, color, x, y, axis) {
        let start = choose|start: int|
            -4 <= start <= 0 && #[trigger] line_filled(board, color, x, y, axis, start, start + 4);
        if -(bwd + 1) >= start {
            assert(board.holds(color, walk(x, y, axis, -(bwd + 1))));
            assert(-(bwd + 1) == toward(false, bwd + 1));
        } else {
            assert(board.holds(color, walk(x, y, axis, fwd + 1)));
            assert(fwd + 1 == toward(true, fwd + 1));
        }
    }
}

/// Whether a stone of `color` at `coord` completes five in a row along
/// `axis`: the stone itself and the runs on both sides of it are counted.
pub fn check_axis(board: &Board, color: BoardPieceType, coord: CoordinationFlat, axis: Axis) -> (five:
    bool)
    requires
        board.wf(),
    ensures
        five == completes_five_on(board@, color, coord.x as int, coord.y as int, axis),
{
    let mut score: usize = 1;
    proof {
        board.lemma_size_bound();
    }
    let ahead = count_run(board, color, coord, axis, true);
    score = score + ahead;
    let behind = count_run(board, color, coord, axis, false);
    score = score + behind;
    proof {
        lemma_runs_decide(
            board@,
            color,
            coord.x as int,
            coord.y as int,
            axis,
            ahead as int,
            behind as int,
        );
    }
    score >= 5
}

/// Whether a stone of `color` at `coord` completes five in a row. The axes
/// are tried in a fixed order and the first that succeeds decides.
pub fn check_five(board: &Board, color: BoardPieceType, coord: CoordinationFlat) -> (five: bool)
    requires
        board.wf(),
    ensures
        five == completes_five(board@, color, coord.x as int, coord.y as int),
        board@.holds(color, (coord.x as int, coord.y as int)) ==> five == five_in_a_row(
            board@,
            color,
            coord.x as int,
            coord.y as int,
        ),
{
    proof {
        if board@.holds(color, (coord.x as int, coord.y as int)) {
            lemma_completes_five(board@, color, coord.x as int, coord.y as int);
        }
    }
    check_axis(board, color, coord, Axis::Horizontal) || check_axis(
        board,
        color,
        coord,
        Axis::Diagonal,
    ) || check_axis(board, color, coord, Axis::Vertical) || check_axis(
        board,
        color,
        coord,
        Axis::AntiDiagonal,
    )
}

} // verus!
