use gomoku::board::{Board, BoardPieceType};
use gomoku::context::GameContext;
use gomoku::coord::CoordinationFlat;
use gomoku::piece::PieceType;
use gomoku::players::{EasyAi, IdiotAi, LocalHumanPlayer, Player};

fn empty_context() -> GameContext {
    GameContext::new(Board::new(), None, 0)
}

#[test]
fn colours_have_names() {
    assert_eq!(PieceType::WHITE.get_name(), "White");
    assert_eq!(PieceType::BLACK.get_name(), "Black");
    assert_eq!(PieceType::WHITE.to_board_piece_type(), BoardPieceType::WHITE);
    assert_eq!(PieceType::BLACK.to_board_piece_type(), BoardPieceType::BLACK);
    assert_eq!(BoardPieceType::WHITE.to_piece_type(), Some(PieceType::WHITE));
    assert_eq!(BoardPieceType::BLACK.to_piece_type(), Some(PieceType::BLACK));
    assert_eq!(BoardPieceType::EMPTY.to_piece_type(), None);
}

#[test]
fn a_context_holds_what_it_was_given() {
    let mut board = Board::new();
    let coord = CoordinationFlat::new(2, 9);
    let _ = board.place(coord, BoardPieceType::BLACK);
    let context = GameContext::new(board, Some(coord), 1);
    assert_eq!(context.last_point, Some(coord));
    assert_eq!(context.total_pieces, 1);
    assert_eq!(context.board.get(coord), Ok(BoardPieceType::BLACK));
}

#[test]
fn players_know_their_colour_and_name() {
    let human = LocalHumanPlayer::new(PieceType::WHITE);
    assert_eq!(human.piece_type(), PieceType::WHITE);
    assert_eq!(human.name(), "Human");
    let idiot = IdiotAi::new(PieceType::BLACK, 0);
    assert_eq!(idiot.piece_type(), PieceType::BLACK);
    assert_eq!(idiot.name(), "Idiot AI");
    let easy = EasyAi::new(PieceType::WHITE);
    assert_eq!(easy.piece_type(), PieceType::WHITE);
    assert_eq!(easy.name(), "Easy AI");
    let seat = Player::IdiotAi(idiot);
    assert_eq!(seat.piece_type(), PieceType::BLACK);
    assert_eq!(seat.name(), "Idiot AI");
    assert!(!seat.is_human());
    assert!(Player::Human(human).is_human());
    assert_eq!(Player::EasyAi(easy).name(), "Easy AI");
}

#[test]
fn the_idiot_walks_a_diagonal() {
    let context = empty_context();
    let mut first = IdiotAi::new(PieceType::BLACK, 0);
    assert_eq!(first.point(&context), Some(CoordinationFlat::new(1, 1)));
    assert_eq!(first.point(&context), Some(CoordinationFlat::new(2, 2)));
    assert_eq!(first.point(&context), Some(CoordinationFlat::new(3, 3)));
    let mut second = IdiotAi::new(PieceType::WHITE, 1);
    assert_eq!(second.point(&context), Some(CoordinationFlat::new(2, 1)));
    assert_eq!(second.point(&context), Some(CoordinationFlat::new(3, 2)));
    assert_eq!(second.piece_type(), PieceType::WHITE);
}

#[test]
fn the_idiot_leaves_a_diagonal_that_leaves_the_board() {
    let context = empty_context();
    let mut ai = IdiotAi::new(PieceType::BLACK, 19);
    assert_eq!(ai.point(&context), Some(CoordinationFlat::new(1, 1)));
    assert_eq!(ai.point(&context), Some(CoordinationFlat::new(2, 2)));
    let mut ai = IdiotAi::new(PieceType::BLACK, 17);
    assert_eq!(ai.point(&context), Some(CoordinationFlat::new(18, 1)));
    assert_eq!(ai.point(&context), Some(CoordinationFlat::new(19, 2)));
    assert_eq!(ai.point(&context), Some(CoordinationFlat::new(1, 1)));
    assert_eq!(ai.point(&context), Some(CoordinationFlat::new(2, 2)));
}

#[test]
fn the_idiot_leaves_a_diagonal_at_the_end_of_the_numbers() {
    let context = empty_context();
    let mut ai = IdiotAi::new(PieceType::BLACK, usize::MAX - 1);
    assert_eq!(ai.point(&context), Some(CoordinationFlat::new(1, 1)));
    let mut ai = IdiotAi::new(PieceType::BLACK, usize::MAX);
    assert_eq!(ai.point(&context), Some(CoordinationFlat::new(1, 1)));
    assert_eq!(ai.point(&context), Some(CoordinationFlat::new(2, 2)));
}

#[test]
fn the_idiot_steps_aside_from_an_occupied_cell() {
    let mut board = Board::new();
    let _ = board.place(CoordinationFlat::new(1, 1), BoardPieceType::BLACK);
    let context = GameContext::new(board, Some(CoordinationFlat::new(1, 1)), 1);
    let mut ai = IdiotAi::new(PieceType::WHITE, 0);
    assert_eq!(ai.point(&context), Some(CoordinationFlat::new(2, 1)));
    assert_eq!(ai.point(&context), Some(CoordinationFlat::new(3, 2)));
    assert_eq!(ai.piece_type(), PieceType::WHITE);

    let mut board = Board::new();
    let _ = board.place(CoordinationFlat::new(1, 1), BoardPieceType::BLACK);
    let _ = board.place(CoordinationFlat::new(2, 1), BoardPieceType::WHITE);
    let _ = board.place(CoordinationFlat::new(2, 2), BoardPieceType::WHITE);
    let context = GameContext::new(board, None, 3);
    let mut ai = IdiotAi::new(PieceType::BLACK, 0);
    assert_eq!(ai.point(&context), Some(CoordinationFlat::new(3, 1)));
    assert_eq!(ai.point(&context), Some(CoordinationFlat::new(4, 2)));
}

#[test]
fn every_move_of_the_idiot_is_legal() {
    let mut board = Board::with_size(4);
    let mut ai = IdiotAi::new(PieceType::BLACK, 2);
    for placed in 0..16 {
        let context = GameContext::new(board.clone(), None, placed);
        let coord = ai.point(&context).unwrap();
        assert_eq!(board.get(coord), Ok(BoardPieceType::EMPTY));
        assert_eq!(board.place(coord, BoardPieceType::BLACK), Ok(BoardPieceType::BLACK));
    }
    let context = GameContext::new(board, None, 16);
    assert_eq!(ai.point(&context), None);
    assert_eq!(ai.point(&context), None);
}

#[test]
fn the_idiot_has_no_move_on_a_full_board() {
    let mut ai = IdiotAi::new(PieceType::WHITE, 0);
    assert_eq!(ai.point(&GameContext::new(Board::with_size(0), None, 0)), None);
    let mut board = Board::with_size(1);
    let _ = board.place(CoordinationFlat::new(1, 1), BoardPieceType::BLACK);
    assert_eq!(ai.point(&GameContext::new(board, None, 1)), None);
    // it has not moved: on an empty board it starts its diagonal
    assert_eq!(ai.point(&empty_context()), Some(CoordinationFlat::new(1, 1)));
    let mut seat = Player::IdiotAi(IdiotAi::new(PieceType::WHITE, 0));
    assert_eq!(seat.point(&GameContext::new(Board::with_size(0), None, 0)), None);
}

#[test]
fn the_easy_machine_takes_the_first_empty_cell() {
    let mut board = Board::with_size(3);
    assert_eq!(EasyAi::first_empty(&board), Some(CoordinationFlat::new(1, 1)));
    let _ = board.place(CoordinationFlat::new(1, 1), BoardPieceType::BLACK);
    assert_eq!(EasyAi::first_empty(&board), Some(CoordinationFlat::new(2, 1)));
    let _ = board.place(CoordinationFlat::new(2, 1), BoardPieceType::WHITE);
    let _ = board.place(CoordinationFlat::new(3, 1), BoardPieceType::BLACK);
    assert_eq!(EasyAi::first_empty(&board), Some(CoordinationFlat::new(1, 2)));
    let _ = board.place(CoordinationFlat::new(2, 2), BoardPieceType::BLACK);
    assert_eq!(EasyAi::first_empty(&board), Some(CoordinationFlat::new(1, 2)));
    let mut ai = EasyAi::new(PieceType::WHITE);
    let context = GameContext::new(board, Some(CoordinationFlat::new(2, 2)), 4);
    assert_eq!(ai.point(&context), Some(CoordinationFlat::new(1, 2)));
}

#[test]
fn the_easy_machine_has_no_move_on_a_full_board() {
    let mut board = Board::with_size(2);
    for (x, y) in [(1, 1), (2, 1), (1, 2)] {
        let _ = board.place(CoordinationFlat::new(x, y), BoardPieceType::BLACK);
    }
    assert_eq!(EasyAi::first_empty(&board), Some(CoordinationFlat::new(2, 2)));
    let _ = board.place(CoordinationFlat::new(2, 2), BoardPieceType::WHITE);
    assert_eq!(EasyAi::first_empty(&board), None);
    assert_eq!(EasyAi::first_empty(&Board::with_size(0)), None);
    let mut seat = Player::EasyAi(EasyAi::new(PieceType::WHITE));
    assert_eq!(seat.point(&GameContext::new(board, None, 4)), None);
}

#[test]
fn a_seat_asks_whoever_sits_there() {
    let context = empty_context();
    let mut human = Player::Human(LocalHumanPlayer::new(PieceType::BLACK));
    assert_eq!(human.point(&context), None);
    let mut idiot = Player::IdiotAi(IdiotAi::new(PieceType::BLACK, 4));
    assert_eq!(idiot.point(&context), Some(CoordinationFlat::new(5, 1)));
    assert_eq!(idiot.point(&context), Some(CoordinationFlat::new(6, 2)));
    let mut easy = Player::EasyAi(EasyAi::new(PieceType::WHITE));
    assert_eq!(easy.point(&context), Some(CoordinationFlat::new(1, 1)));
    assert_eq!(easy.point(&context), Some(CoordinationFlat::new(1, 1)));
}
