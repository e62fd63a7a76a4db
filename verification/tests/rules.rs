use mega_tictactoe::engine::apply_drawn_reset;
use mega_tictactoe::engine::apply_move;
use mega_tictactoe::engine::evaluate_mini_board;
use mega_tictactoe::engine::post_move_transition;
use mega_tictactoe::game::GameState;
use mega_tictactoe::game::MiniBoard;
use mega_tictactoe::game::MiniBoardStatus;
use mega_tictactoe::game::MoveError;
use mega_tictactoe::game::MoveResult;
use mega_tictactoe::game::Player;

const X: Option<Player> = Some(Player::X);
const O: Option<Player> = Some(Player::O);
const E: Option<Player> = None;

/// The classic draw pattern: X O X / X O O / O X X, no completed line.
fn draw_pattern() -> Vec<Option<Player>> {
    vec![X, O, X, X, O, O, O, X, X]
}

#[test]
fn new_game_is_empty_with_x_to_move() {
    let game = GameState::new();
    assert_eq!(game.current_player(), Player::X);
    for board in 0..9 {
        assert_eq!(game.mini_board_status(board), Ok(MiniBoardStatus::Unclaimed));
        for cell in 0..9 {
            assert_eq!(game.occupant_at(board, cell), Ok(None));
        }
    }
}

#[test]
fn occupant_at_rejects_out_of_range() {
    let game = GameState::new();
    assert_eq!(game.occupant_at(9, 0), Err(MoveError::IndexOutOfRange));
    assert_eq!(game.occupant_at(0, 9), Err(MoveError::IndexOutOfRange));
    assert_eq!(game.occupant_at(100, 100), Err(MoveError::IndexOutOfRange));
}

#[test]
fn mini_board_status_rejects_out_of_range() {
    let game = GameState::new();
    assert_eq!(game.mini_board_status(9), Err(MoveError::IndexOutOfRange));
    assert_eq!(game.mini_board_status(0), Ok(MiniBoardStatus::Unclaimed));
}

#[test]
fn evaluate_each_winning_line_for_both_players() {
    let lines: [[usize; 3]; 8] = [
        [0, 3, 6],
        [1, 4, 7],
        [2, 5, 8],
        [0, 1, 2],
        [3, 4, 5],
        [6, 7, 8],
        [0, 4, 8],
        [2, 4, 6],
    ];
    for player in [Player::X, Player::O] {
        for line in lines {
            let mut cells = vec![E; 9];
            for i in line {
                cells[i] = Some(player);
            }
            assert_eq!(evaluate_mini_board(&cells), Some(player));
        }
    }
}

#[test]
fn evaluate_full_draw_pattern_is_none() {
    assert_eq!(evaluate_mini_board(&draw_pattern()), None);
}

#[test]
fn evaluate_empty_board_is_none() {
    assert_eq!(evaluate_mini_board(&vec![E; 9]), None);
}

#[test]
fn evaluate_incomplete_line_is_none() {
    assert_eq!(evaluate_mini_board(&vec![X, X, E, E, E, E, E, E, E]), None);
    assert_eq!(evaluate_mini_board(&vec![X, E, E, X, E, E, E, E, E]), None);
}

#[test]
fn evaluate_first_line_in_scan_order_decides() {
    // Malformed position with two complete lines: column {0,3,6} for X and
    // column {1,4,7} for O. The scan checks column 0 first, so X wins.
    let cells = vec![X, O, E, X, O, E, X, O, E];
    assert_eq!(evaluate_mini_board(&cells), Some(Player::X));
    // The mirror image: column 0 completed by O, column 1 by X.
    let cells = vec![O, X, E, O, X, E, O, X, E];
    assert_eq!(evaluate_mini_board(&cells), Some(Player::O));
}

#[test]
fn transition_claims_winning_board() {
    let mut board = MiniBoard::from_cells(vec![X, O, O, X, E, E, X, E, E]);
    let status = post_move_transition(&mut board);
    assert_eq!(status, MiniBoardStatus::Claimed(Player::X));
    assert_eq!(board.status(), MiniBoardStatus::Claimed(Player::X));
    // The cells themselves are untouched by the classification.
    assert_eq!(board.cell(0), X);
    assert_eq!(board.cell(1), O);
    assert_eq!(board.cell(4), E);
}

#[test]
fn transition_marks_full_board_without_line_drawn() {
    let mut board = MiniBoard::from_cells(draw_pattern());
    let status = post_move_transition(&mut board);
    assert_eq!(status, MiniBoardStatus::Drawn);
}

#[test]
fn transition_leaves_open_board_unclaimed() {
    let mut board = MiniBoard::from_cells(vec![X, O, E, E, E, E, E, E, E]);
    let status = post_move_transition(&mut board);
    assert_eq!(status, MiniBoardStatus::Unclaimed);
    assert_eq!(board.cell(0), X);
    assert_eq!(board.cell(1), O);
}

#[test]
fn drawn_reset_clears_board() {
    let mut board = MiniBoard::from_cells(draw_pattern());
    let status = post_move_transition(&mut board);
    assert_eq!(status, MiniBoardStatus::Drawn);
    apply_drawn_reset(&mut board);
    assert_eq!(board.status(), MiniBoardStatus::Unclaimed);
    for cell in 0..9 {
        assert_eq!(board.cell(cell), None);
    }
}

#[test]
fn apply_move_rejects_out_of_range() {
    let mut game = GameState::new();
    assert_eq!(
        apply_move(&mut game, 9, 0),
        MoveResult::Rejected(MoveError::IndexOutOfRange)
    );
    assert_eq!(
        apply_move(&mut game, 0, 9),
        MoveResult::Rejected(MoveError::IndexOutOfRange)
    );
    // The rejected moves changed nothing.
    assert_eq!(game.current_player(), Player::X);
    assert_eq!(game.occupant_at(0, 0), Ok(None));
}

#[test]
fn apply_move_rejects_occupied_cell() {
    let mut game = GameState::new();
    assert_eq!(apply_move(&mut game, 4, 4), MoveResult::Accepted);
    assert_eq!(game.current_player(), Player::O);
    // O, then anyone, tries the same cell again: always rejected, nothing moves.
    for _ in 0..3 {
        assert_eq!(
            apply_move(&mut game, 4, 4),
            MoveResult::Rejected(MoveError::CellOccupied)
        );
        assert_eq!(game.occupant_at(4, 4), Ok(X));
        assert_eq!(game.current_player(), Player::O);
    }
}

#[test]
fn turn_alternates_only_on_accepted_moves() {
    let mut game = GameState::new();
    assert_eq!(game.current_player(), Player::X); // 0 accepted moves
    assert_eq!(apply_move(&mut game, 0, 0), MoveResult::Accepted);
    assert_eq!(game.current_player(), Player::O); // 1
    assert_ne!(apply_move(&mut game, 0, 0), MoveResult::Accepted);
    assert_eq!(game.current_player(), Player::O); // still 1
    assert_eq!(apply_move(&mut game, 1, 0), MoveResult::Accepted);
    assert_eq!(game.current_player(), Player::X); // 2
    assert_ne!(apply_move(&mut game, 9, 9), MoveResult::Accepted);
    assert_eq!(game.current_player(), Player::X); // still 2
    assert_eq!(apply_move(&mut game, 2, 0), MoveResult::Accepted);
    assert_eq!(game.current_player(), Player::O); // 3
}

#[test]
fn claimed_board_rejects_all_further_moves() {
    let mut game = GameState::new();
    // X claims mini-board 0 through the vertical line {0, 3, 6}.
    for (board, cell) in [(0, 0), (0, 1), (0, 3), (0, 4), (0, 6)] {
        assert_eq!(apply_move(&mut game, board, cell), MoveResult::Accepted);
    }
    assert_eq!(game.mini_board_status(0), Ok(MiniBoardStatus::Claimed(Player::X)));
    // An empty cell of the claimed board is rejected...
    assert_eq!(
        apply_move(&mut game, 0, 8),
        MoveResult::Rejected(MoveError::MiniBoardNotPlayable)
    );
    // ...and so is an occupied one: the board check comes before the cell check.
    assert_eq!(
        apply_move(&mut game, 0, 0),
        MoveResult::Rejected(MoveError::MiniBoardNotPlayable)
    );
    // The claim and the turn are unchanged.
    assert_eq!(game.mini_board_status(0), Ok(MiniBoardStatus::Claimed(Player::X)));
    assert_eq!(game.current_player(), Player::O);
    // Other mini-boards are still playable.
    assert_eq!(apply_move(&mut game, 1, 0), MoveResult::Accepted);
}
