use gomoku::board::{BoardError, BoardPieceType};
use gomoku::builder::{GameBuilder, GameBuilderPlayerType};
use gomoku::coord::CoordinationFlat;
use gomoku::game::{Game, GameError};
use gomoku::piece::PieceType;

fn started() -> Game {
    let mut game = Game::game_builder().build();
    game.start();
    game
}

fn at(x: usize, y: usize) -> CoordinationFlat {
    CoordinationFlat::new(x, y)
}

#[test]
fn a_new_game_is_not_started() {
    let game = Game::game_builder().build();
    assert!(!game.is_started());
    assert!(!game.is_ended());
    assert_eq!(game.current_player_index(), 0);
    assert_eq!(game.history().len(), 0);
    assert_eq!(game.board().size(), 19);
    assert!(!game.check_game_end());
    assert_eq!(game.get_current_player().piece_type(), PieceType::BLACK);
    assert_eq!(game.get_another_player().piece_type(), PieceType::WHITE);
}

#[test]
fn moves_before_the_start_are_refused() {
    let mut game = Game::game_builder().build();
    assert_eq!(game.point(at(3, 3)), Err(GameError::NotStarted));
    assert_eq!(game.point(at(0, 0)), Err(GameError::NotStarted));
    assert_eq!(game.history().len(), 0);
    assert_eq!(game.board().get(at(3, 3)), Ok(BoardPieceType::EMPTY));
    game.start();
    assert!(game.is_started());
    assert_eq!(game.point(at(3, 3)), Ok(None));
}

#[test]
fn starting_twice_changes_nothing() {
    let mut game = started();
    assert_eq!(game.point(at(3, 3)), Ok(None));
    game.start();
    assert!(game.is_started());
    assert!(!game.is_ended());
    assert_eq!(game.history().len(), 1);
    assert_eq!(game.current_player_index(), 1);
    assert_eq!(game.board().get(at(3, 3)), Ok(BoardPieceType::BLACK));
}

#[test]
fn five_in_a_row_wins_the_game() {
    let mut game = started();
    let black = [(1, 5), (1, 6), (1, 7), (1, 8), (1, 9)];
    let white = [(10, 3), (12, 7), (15, 15), (3, 18)];
    for i in 0..4 {
        assert_eq!(game.point(at(black[i].0, black[i].1)), Ok(None));
        assert_eq!(game.point(at(white[i].0, white[i].1)), Ok(None));
    }
    assert!(!game.is_ended());
    assert_eq!(game.point(at(1, 9)), Ok(Some(PieceType::BLACK)));
    assert!(game.is_ended());
    assert!(game.check_game_end());
    assert_eq!(game.history().len(), 9);
    assert_eq!(game.current_player_index(), 0);
    assert_eq!(game.get_current_player().piece_type(), PieceType::BLACK);
}

#[test]
fn moves_after_a_win_are_refused() {
    let mut game = started();
    for i in 0..4 {
        assert_eq!(game.point(at(1, 5 + i)), Ok(None));
        assert_eq!(game.point(at(10, 5 + i)), Ok(None));
    }
    assert_eq!(game.point(at(1, 9)), Ok(Some(PieceType::BLACK)));
    assert_eq!(game.point(at(10, 9)), Err(GameError::GameOver));
    assert_eq!(game.point(at(1, 9)), Err(GameError::GameOver));
    assert_eq!(game.point(at(0, 0)), Err(GameError::GameOver));
    assert_eq!(game.history().len(), 9);
    assert_eq!(game.board().get(at(10, 9)), Ok(BoardPieceType::EMPTY));
    game.start();
    assert!(game.is_ended());
    assert_eq!(game.point(at(10, 9)), Err(GameError::GameOver));
}

#[test]
fn white_can_win_too() {
    let mut game = started();
    let black = [(1, 1), (3, 1), (5, 1), (7, 1), (9, 1)];
    let white = [(6, 6), (7, 7), (8, 8), (9, 9), (10, 10)];
    for i in 0..4 {
        assert_eq!(game.point(at(black[i].0, black[i].1)), Ok(None));
        assert_eq!(game.point(at(white[i].0, white[i].1)), Ok(None));
    }
    assert_eq!(game.point(at(9, 1)), Ok(None));
    assert_eq!(game.point(at(10, 10)), Ok(Some(PieceType::WHITE)));
    assert!(game.is_ended());
    assert_eq!(game.current_player_index(), 1);
    assert_eq!(game.get_current_player().piece_type(), PieceType::WHITE);
    assert_eq!(game.get_another_player().piece_type(), PieceType::BLACK);
}

#[test]
fn a_gap_in_the_row_does_not_win() {
    let mut game = started();
    let black = [(1, 5), (1, 6), (1, 7), (1, 8), (1, 10)];
    let white = [(10, 3), (12, 7), (15, 15), (3, 18)];
    for i in 0..4 {
        assert_eq!(game.point(at(black[i].0, black[i].1)), Ok(None));
        assert_eq!(game.point(at(white[i].0, white[i].1)), Ok(None));
    }
    assert_eq!(game.point(at(1, 10)), Ok(None));
    assert!(!game.is_ended());
    assert!(!game.check_game_end());
    assert_eq!(game.current_player_index(), 1);
    // closing the gap wins
    assert_eq!(game.point(at(4, 4)), Ok(None));
    assert_eq!(game.point(at(1, 9)), Ok(Some(PieceType::BLACK)));
}

#[test]
fn an_occupied_cell_keeps_the_turn() {
    let mut game = started();
    assert_eq!(game.point(at(4, 4)), Ok(None));
    assert_eq!(game.current_player_index(), 1);
    assert_eq!(game.history().len(), 1);
    assert_eq!(
        game.point(at(4, 4)),
        Err(GameError::Board(BoardError::Occupied(PieceType::BLACK)))
    );
    assert_eq!(game.current_player_index(), 1);
    assert_eq!(game.history().len(), 1);
    assert_eq!(game.board().get(at(4, 4)), Ok(BoardPieceType::BLACK));
    assert_eq!(game.point(at(4, 5)), Ok(None));
    assert_eq!(
        game.point(at(4, 5)),
        Err(GameError::Board(BoardError::Occupied(PieceType::WHITE)))
    );
    assert_eq!(game.current_player_index(), 0);
    assert_eq!(game.history().len(), 2);
}

#[test]
fn a_point_off_the_board_keeps_the_turn() {
    let mut game = started();
    for (x, y) in [(0, 1), (1, 0), (20, 1), (1, 20), (usize::MAX, usize::MAX)] {
        assert_eq!(game.point(at(x, y)), Err(GameError::Board(BoardError::OutOfBounds)));
        assert_eq!(game.current_player_index(), 0);
        assert_eq!(game.history().len(), 0);
    }
    assert_eq!(game.point(at(19, 19)), Ok(None));
    assert_eq!(game.current_player_index(), 1);
}

#[test]
fn the_history_grows_with_each_stone_placed() {
    let mut game = started();
    let mut placed = 0;
    let tries = [(1, 1), (1, 1), (0, 5), (2, 1), (2, 1), (3, 3), (25, 25), (1, 1), (9, 9)];
    for (x, y) in tries {
        let before = game.history().len();
        let outcome = game.point(at(x, y));
        if outcome.is_ok() {
            placed += 1;
            assert_eq!(game.history().len(), before + 1);
            let last = game.history()[before];
            assert_eq!(last.1, at(x, y));
        } else {
            assert_eq!(game.history().len(), before);
        }
        assert_eq!(game.history().len(), placed);
    }
    assert_eq!(placed, 4);
    let history = game.history();
    assert_eq!(history[0], (PieceType::BLACK, at(1, 1)));
    assert_eq!(history[1], (PieceType::WHITE, at(2, 1)));
    assert_eq!(history[2], (PieceType::BLACK, at(3, 3)));
    assert_eq!(history[3], (PieceType::WHITE, at(9, 9)));
}

#[test]
fn the_players_take_turns() {
    let mut game = started();
    let mut n = 0;
    for x in 1..=19 {
        // a zigzag for each colour, so that nobody gets five in a row
        let rows = if x % 2 == 1 { [1, 2] } else { [2, 1] };
        for y in rows {
            assert_eq!(game.current_player_index(), n % 2);
            let expected = if n % 2 == 0 { PieceType::BLACK } else { PieceType::WHITE };
            assert_eq!(game.get_current_player().piece_type(), expected);
            assert_eq!(game.point(at(x, y)), Ok(None));
            assert_eq!(game.board().get(at(x, y)), Ok(expected.to_board_piece_type()));
            n += 1;
            assert_eq!(game.history().len(), n);
        }
    }
    assert_eq!(game.current_player_index(), 0);
}

#[test]
fn the_context_shows_the_game() {
    let mut game = started();
    let context = game.context();
    assert_eq!(context.last_point, None);
    assert_eq!(context.total_pieces, 0);
    assert_eq!(game.point(at(4, 7)), Ok(None));
    assert_eq!(game.point(at(5, 7)), Ok(None));
    let mut context = game.context();
    assert_eq!(context.last_point, Some(at(5, 7)));
    assert_eq!(context.total_pieces, 2);
    assert_eq!(context.board.get(at(4, 7)), Ok(BoardPieceType::BLACK));
    assert_eq!(context.board.get(at(5, 7)), Ok(BoardPieceType::WHITE));
    // what is done to the snapshot does not reach the game
    assert_eq!(context.board.place(at(6, 7), BoardPieceType::BLACK), Ok(BoardPieceType::BLACK));
    assert_eq!(game.board().get(at(6, 7)), Ok(BoardPieceType::EMPTY));
    assert_eq!(game.history().len(), 2);
}

#[test]
fn the_builder_seats_the_players() {
    let game = GameBuilder::new().build();
    assert!(game.get_current_player().is_human());
    assert!(game.get_another_player().is_human());
    assert_eq!(game.get_current_player().name(), "Human");

    let mut builder = Game::game_builder();
    builder
        .set_first_player(GameBuilderPlayerType::IdiotAi)
        .set_second_player(GameBuilderPlayerType::EasyAi);
    let game = builder.build();
    assert_eq!(game.get_current_player().name(), "Idiot AI");
    assert_eq!(game.get_current_player().piece_type(), PieceType::BLACK);
    assert_eq!(game.get_another_player().name(), "Easy AI");
    assert_eq!(game.get_another_player().piece_type(), PieceType::WHITE);
    assert!(!game.get_current_player().is_human());

    builder.set_first_player(GameBuilderPlayerType::Human);
    let game = builder.build();
    assert_eq!(game.get_current_player().name(), "Human");
    assert_eq!(game.get_another_player().name(), "Easy AI");
}

#[test]
fn a_human_is_asked_at_the_console() {
    let mut game = started();
    assert_eq!(game.ask_current_player(), None);
    assert_eq!(game.history().len(), 0);
}

#[test]
fn two_machines_play_a_game_to_the_end() {
    let mut builder = Game::game_builder();
    builder
        .set_first_player(GameBuilderPlayerType::IdiotAi)
        .set_second_player(GameBuilderPlayerType::IdiotAi);
    let mut game = builder.build();
    game.start();
    // Black walks (1,1), (2,2), ...; White walks (2,1), (3,2), ...
    for i in 1..=4 {
        let coord = game.ask_current_player();
        assert_eq!(coord, Some(at(i, i)));
        assert_eq!(game.point(coord.unwrap()), Ok(None));
        let coord = game.ask_current_player();
        assert_eq!(coord, Some(at(i + 1, i)));
        assert_eq!(game.point(coord.unwrap()), Ok(None));
    }
    let coord = game.ask_current_player();
    assert_eq!(coord, Some(at(5, 5)));
    assert_eq!(game.point(coord.unwrap()), Ok(Some(PieceType::BLACK)));
    assert!(game.is_ended());
    assert_eq!(game.history().len(), 9);
}

#[test]
fn the_easy_machine_fills_the_board_in_reading_order() {
    let mut builder = Game::game_builder();
    builder
        .set_first_player(GameBuilderPlayerType::EasyAi)
        .set_second_player(GameBuilderPlayerType::EasyAi);
    let mut game = builder.build();
    game.start();
    assert_eq!(game.ask_current_player(), Some(at(1, 1)));
    assert_eq!(game.point(at(1, 1)), Ok(None));
    assert_eq!(game.ask_current_player(), Some(at(2, 1)));
    assert_eq!(game.point(at(3, 1)), Ok(None));
    assert_eq!(game.ask_current_player(), Some(at(2, 1)));
    assert_eq!(game.point(at(2, 1)), Ok(None));
    assert_eq!(game.ask_current_player(), Some(at(4, 1)));
}

#[test]
fn a_machine_offers_only_moves_that_are_accepted() {
    let mut builder = Game::game_builder();
    builder
        .set_first_player(GameBuilderPlayerType::IdiotAi)
        .set_second_player(GameBuilderPlayerType::EasyAi);
    let mut game = builder.build();
    game.start();
    let mut placed = 0;
    while !game.is_ended() {
        let coord = game.ask_current_player().unwrap();
        assert_eq!(game.board().get(coord), Ok(BoardPieceType::EMPTY));
        assert!(game.point(coord).is_ok());
        placed += 1;
        assert_eq!(game.history().len(), placed);
        assert!(placed <= 361);
    }
}
