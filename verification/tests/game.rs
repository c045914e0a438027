use tictactoe::error::ErrorKind;
use tictactoe::game::{Game, MotionResult};
use tictactoe::mark::TicTacCharacter;
use tictactoe::table::Table;

fn started(size: usize) -> Game {
    let mut game = Game::default();
    assert_eq!(game.start_new_game(String::from("Ann"), String::from("Bob"), size), Ok(()));
    game
}

#[test]
fn default_game_is_not_started() {
    let mut game = Game::default();
    assert_eq!(game.player_one(), "");
    assert_eq!(game.player_two(), "");
    assert_eq!(game.table().size(), 0);
    assert_eq!(game.motions_character(), TicTacCharacter::Null);
    assert_eq!(game.motion(0), Err(ErrorKind::OutOfRange));
    assert_eq!(game, Game::default());
}

#[test]
fn new_game_has_a_blank_table_and_the_first_player_to_move() {
    for size in 3..=10usize {
        let game = started(size);
        assert_eq!(game.player_one(), "Ann");
        assert_eq!(game.player_two(), "Bob");
        assert_eq!(game.motions_character(), TicTacCharacter::Tic);
        assert_eq!(game.current_player(), "Ann");
        assert_eq!(*game.table(), Table::create_with(size));
    }
}

#[test]
fn new_game_of_an_unplayable_size_is_turned_down() {
    for size in [0usize, 1, 2, 11, 12, 100, usize::MAX] {
        let mut game = Game::default();
        assert_eq!(
            game.start_new_game(String::from("Ann"), String::from("Bob"), size),
            Err(ErrorKind::InvalidSize)
        );
        assert_eq!(game, Game::default());

        let mut game = started(3);
        assert_eq!(game.motion(4), Ok(MotionResult::Continue));
        let before = game.clone();
        assert_eq!(
            game.start_new_game(String::from("Cid"), String::from("Dee"), size),
            Err(ErrorKind::InvalidSize)
        );
        assert_eq!(game, before);
    }
}

#[test]
fn turn_alternates_after_every_continue() {
    let mut game = started(4);
    let mut expected = TicTacCharacter::Tic;
    for index in [0usize, 1, 2, 7, 5, 9] {
        assert_eq!(game.motions_character(), expected);
        assert_eq!(game.motion(index), Ok(MotionResult::Continue));
        assert_eq!(game.table().cell(index), Some(expected));
        expected = expected.anti();
        assert_eq!(game.motions_character(), expected);
    }
    assert_eq!(game.current_player(), "Ann");
}

#[test]
fn turn_stays_after_an_error() {
    let mut game = started(3);
    assert_eq!(game.motion(4), Ok(MotionResult::Continue));
    let before = game.clone();
    assert_eq!(game.motion(4), Err(ErrorKind::CellOccupied));
    assert_eq!(game, before);
    assert_eq!(game.motion(9), Err(ErrorKind::OutOfRange));
    assert_eq!(game, before);
    assert_eq!(game.motions_character(), TicTacCharacter::Tac);
    assert_eq!(game.current_player(), "Bob");
}

#[test]
fn third_mark_in_the_top_row_wins() {
    let mut game = started(3);
    assert_eq!(game.motion(0), Ok(MotionResult::Continue));
    assert_eq!(game.motion(3), Ok(MotionResult::Continue));
    assert_eq!(game.motion(1), Ok(MotionResult::Continue));
    assert_eq!(game.motion(4), Ok(MotionResult::Continue));
    assert_eq!(game.motion(2), Ok(MotionResult::Win(TicTacCharacter::Tic)));
    assert!(game.table().check_win(TicTacCharacter::Tic));
    assert_eq!(game.motions_character(), TicTacCharacter::Tic);
    assert_eq!(game.current_player(), "Ann");
}

#[test]
fn second_player_can_win() {
    let mut game = started(3);
    for index in [0usize, 2, 1, 5, 6] {
        assert_eq!(game.motion(index), Ok(MotionResult::Continue));
    }
    assert_eq!(game.motion(8), Ok(MotionResult::Win(TicTacCharacter::Tac)));
    assert_eq!(game.motions_character(), TicTacCharacter::Tac);
    assert_eq!(game.current_player(), "Bob");
}

#[test]
fn full_table_without_a_line_is_a_draw() {
    let mut game = started(3);
    for index in [1usize, 0, 3, 2, 5, 4, 6, 7] {
        assert_eq!(game.motion(index), Ok(MotionResult::Continue));
    }
    assert_eq!(game.motion(8), Ok(MotionResult::Draw));
    assert!(game.table().filed());
    assert!(!game.table().check_win(TicTacCharacter::Tic));
    assert!(!game.table().check_win(TicTacCharacter::Tac));
    assert_eq!(game.motions_character(), TicTacCharacter::Tic);
}

#[test]
fn win_on_the_last_free_cell_is_a_win() {
    let mut game = started(3);
    for index in [1usize, 0, 2, 4, 3, 6, 5, 7] {
        assert_eq!(game.motion(index), Ok(MotionResult::Continue));
    }
    assert_eq!(game.motion(8), Ok(MotionResult::Win(TicTacCharacter::Tic)));
    assert!(game.table().filed());
}

#[test]
fn restart_after_a_win_resets_table_and_turn() {
    let mut game = started(3);
    for index in [0usize, 2, 1, 5, 6] {
        assert_eq!(game.motion(index), Ok(MotionResult::Continue));
    }
    assert_eq!(game.motion(8), Ok(MotionResult::Win(TicTacCharacter::Tac)));
    assert_eq!(game.start_new_game(String::from("Cid"), String::from("Dee"), 5), Ok(()));
    assert_eq!(game.player_one(), "Cid");
    assert_eq!(game.player_two(), "Dee");
    assert_eq!(game.motions_character(), TicTacCharacter::Tic);
    assert_eq!(*game.table(), Table::create_with(5));
    for index in 0..25 {
        assert_eq!(game.table().cell(index), Some(TicTacCharacter::Null));
    }
}

#[test]
fn restart_after_a_draw_resets_table_and_turn() {
    let mut game = started(3);
    for index in [1usize, 0, 3, 2, 5, 4, 6, 7] {
        assert_eq!(game.motion(index), Ok(MotionResult::Continue));
    }
    assert_eq!(game.motion(8), Ok(MotionResult::Draw));
    assert_eq!(game.start_new_game(String::from("Ann"), String::from("Bob"), 3), Ok(()));
    assert_eq!(game, started(3));
}

#[test]
fn set_as_takes_over_the_other_game() {
    let mut other = started(4);
    assert_eq!(other.motion(5), Ok(MotionResult::Continue));
    let mut game = Game::default();
    game.set_as(other.clone());
    assert_eq!(game, other);
    assert_eq!(game.motions_character(), TicTacCharacter::Tac);
    assert_eq!(game.table().cell(5), Some(TicTacCharacter::Tic));
}
