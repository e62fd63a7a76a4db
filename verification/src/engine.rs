//! The rule engine: stateless functions over `GameState`. A move is validated
//! and applied by `apply_move`; the affected mini-board is then classified by
//! `post_move_transition` (using `evaluate_mini_board` for win detection), and
//! a mini-board that came out `Drawn` is cleared again by `apply_drawn_reset`
//! inside the same logical step. Every contract is stated over the functional
//! model `game_step` / `step_result`.

use vstd::prelude::*;

use crate::game::GameState;
use crate::game::GameView;
use crate::game::BoardView;
use crate::game::MiniBoard;
use crate::game::MiniBoardStatus;
use crate::game::MoveError;
use crate::game::MoveResult;
use crate::game::Player;
use crate::game::empty_board_view;

verus! {

/// The winner a single line yields: `Some(p)` when all three of its cells are
/// occupied by the same player `p`, `None` otherwise (in particular when any
/// of the three is empty).
pub open spec fn line_winner(cells: Seq<Option<Player>>, a: int, b: int, c: int) -> Option<
    Player,
> {
    if cells[a] is Some && cells[b] == cells[a] && cells[c] == cells[a] {
        cells[a]
    } else {
        None
    }
}

/// Keeps an already-found winner: a later line never overrides an earlier one.
pub open spec fn first_winner(found: Option<Player>, next: Option<Player>) -> Option<Player> {
    if found is Some {
        found
    } else {
        next
    }
}

/// The winner of a 9-cell position. The 8 winning lines are scanned in a fixed
/// order — the three columns, the three rows, then the two diagonals — and the
/// first line whose three cells hold the same player decides.
pub open spec fn winner_of(cells: Seq<Option<Player>>) -> Option<Player> {
    first_winner(
        line_winner(cells, 0, 3, 6),
        first_winner(
            line_winner(cells, 1, 4, 7),
            first_winner(
                line_winner(cells, 2, 5, 8),
                first_winner(
                    line_winner(cells, 0, 1, 2),
                    first_winner(
                        line_winner(cells, 3, 4, 5),
                        first_winner(
                            line_winner(cells, 6, 7, 8),
                            first_winner(line_winner(cells, 0, 4, 8), line_winner(cells, 2, 4, 6)),
                        ),
                    ),
                ),
            ),
        ),
    )
}

/// Whether `(a, b, c)` is one of the 8 winning lines of a 3x3 board, in the
/// index order the scan uses.
pub open spec fn is_winning_line(a: int, b: int, c: int) -> bool {
    ||| (a == 0 && b == 3 && c == 6)
    ||| (a == 1 && b == 4 && c == 7)
    ||| (a == 2 && b == 5 && c == 8)
    ||| (a == 0 && b == 1 && c == 2)
    ||| (a == 3 && b == 4 && c == 5)
    ||| (a == 6 && b == 7 && c == 8)
    ||| (a == 0 && b == 4 && c == 8)
    ||| (a == 2 && b == 4 && c == 6)
}

/// Whether every cell of the position is occupied.
pub open spec fn is_full(cells: Seq<Option<Player>>) -> bool {
    forall|i: int| 0 <= i < 9 ==> (#[trigger] cells[i]) is Some
}

/// The status a mini-board's cells classify to: `Claimed` on a completed line,
/// `Drawn` on a full board without one, `Unclaimed` otherwise.
pub open spec fn transition_status(cells: Seq<Option<Player>>) -> MiniBoardStatus {
    match winner_of(cells) {
        Some(p) => MiniBoardStatus::Claimed(p),
        None => if is_full(cells) {
            MiniBoardStatus::Drawn
        } else {
            MiniBoardStatus::Unclaimed
        },
    }
}

/// A mini-board as it stands once a move into it has settled: claimed by the
/// winner of a completed line; reset to empty and `Unclaimed` when it filled
/// up without one (a draw never persists); otherwise unchanged and still
/// `Unclaimed`.
pub open spec fn settled_board(cells: Seq<Option<Player>>) -> BoardView {
    match winner_of(cells) {
        Some(p) => BoardView { cells, status: MiniBoardStatus::Claimed(p) },
        None => if is_full(cells) {
            empty_board_view()
        } else {
            BoardView { cells, status: MiniBoardStatus::Unclaimed }
        },
    }
}

/// Whether both indices address a real cell.
pub open spec fn in_range(board_index: int, cell_index: int) -> bool {
    0 <= board_index < 9 && 0 <= cell_index < 9
}

/// Whether a move is accepted: indices in range, the targeted mini-board still
/// `Unclaimed`, the targeted cell still empty.
pub open spec fn move_allowed(g: GameView, board_index: int, cell_index: int) -> bool {
    &&& in_range(board_index, cell_index)
    &&& g.boards[board_index].status is Unclaimed
    &&& g.boards[board_index].cells[cell_index] is None
}

/// What `apply_move` reports, with the checks made in this order: indices
/// first, then the mini-board's status, then the cell's occupancy.
pub open spec fn step_result(g: GameView, board_index: int, cell_index: int) -> MoveResult {
    if !in_range(board_index, cell_index) {
        MoveResult::Rejected(MoveError::IndexOutOfRange)
    } else if !(g.boards[board_index].status is Unclaimed) {
        MoveResult::Rejected(MoveError::MiniBoardNotPlayable)
    } else if g.boards[board_index].cells[cell_index] is Some {
        MoveResult::Rejected(MoveError::CellOccupied)
    } else {
        MoveResult::Accepted
    }
}

/// The game after one move: on an accepted move the current player's mark is
/// written, the turn passes to the other player, and the targeted mini-board
/// settles (claim or draw-reset); a rejected move changes nothing.
pub open spec fn game_step(g: GameView, board_index: int, cell_index: int) -> GameView {
    if move_allowed(g, board_index, cell_index) {
        GameView {
            boards: g.boards.update(
                board_index,
                settled_board(g.boards[board_index].cells.update(cell_index, Some(g.turn))),
            ),
            turn: g.turn.opponent(),
        }
    } else {
        g
    }
}

/// Checks one line of the position, by the indices of its three cells.
fn check_line(cells: &Vec<Option<Player>>, a: usize, b: usize, c: usize) -> (r: Option<Player>)
    requires
        cells@.len() == 9,
        a < 9,
        b < 9,
        c < 9,
    ensures
        r == line_winner(cells@, a as int, b as int, c as int),
{
    match cells[a] {
        None => None,
        Some(p) => {
            let same_b = match cells[b] {
                Some(q) => q == p,
                None => false,
            };
            let same_c = match cells[c] {
                Some(q) => q == p,
                None => false,
            };
            if same_b && same_c {
                Some(p)
            } else {
                None
            }
        },
    }
}

/// Keeps an already-found winner in preference to a later line's.
fn keep_first(found: Option<Player>, next: Option<Player>) -> (r: Option<Player>)
    ensures
        r == first_winner(found, next),
{
    match found {
        Some(p) => Some(p),
        None => next,
    }
}

/// Pure win detection over a 9-cell position: the three columns, the three
/// rows, then the two diagonals, the first completed line deciding. Returns
/// `None` when no line of three identical non-empty occupants exists.
pub fn evaluate_mini_board(cells: &Vec<Option<Player>>) -> (winner: Option<Player>)
    requires
        cells@.len() == 9,
    ensures
        winner == winner_of(cells@),
{
    let mut winner = check_line(cells, 0, 3, 6);
    winner = keep_first(winner, check_line(cells, 1, 4, 7));
    winner = keep_first(winner, check_line(cells, 2, 5, 8));
    winner = keep_first(winner, check_line(cells, 0, 1, 2));
    winner = keep_first(winner, check_line(cells, 3, 4, 5));
    winner = keep_first(winner, check_line(cells, 6, 7, 8));
    winner = keep_first(winner, check_line(cells, 0, 4, 8));
    winner = keep_first(winner, check_line(cells, 2, 4, 6));
    winner
}

/// Whether every cell of the position is occupied.
fn all_cells_occupied(cells: &Vec<Option<Player>>) -> (full: bool)
    requires
        cells@.len() == 9,
    ensures
        full == is_full(cells@),
{
    let mut i: usize = 0;
    while i < 9
        invariant
            i <= 9,
            cells@.len() == 9,
            forall|j: int| 0 <= j < i ==> (#[trigger] cells@[j]) is Some,
        decreases 9 - i,
    {
        if cells[i].is_none() {
            return false;
        }
        i = i + 1;
    }
    true
}

/// Recomputes the cached status of a mini-board whose cells just changed:
/// `Claimed(winner)` on a completed line, `Drawn` on a full board without one,
/// `Unclaimed` otherwise. The cells themselves are left as they are; a
/// `Drawn` result is to be followed by `apply_drawn_reset` in the same step.
pub fn post_move_transition(board: &mut MiniBoard) -> (status: MiniBoardStatus)
    requires
        old(board).wf(),
    ensures
        final(board).wf(),
        final(board)@.cells == old(board)@.cells,
        final(board)@.status == transition_status(old(board)@.cells),
        status == transition_status(old(board)@.cells),
{
    let status = match evaluate_mini_board(board.cells()) {
        Some(winner) => MiniBoardStatus::Claimed(winner),
        None => {
            if all_cells_occupied(board.cells()) {
                MiniBoardStatus::Drawn
            } else {
                MiniBoardStatus::Unclaimed
            }
        },
    };
    board.set_status(status);
    status
}

/// Resets a drawn mini-board: every cell is cleared and the status returns to
/// `Unclaimed`, so the mini-board can be played again as if it had never been
/// played. No record of the draw persists.
pub fn apply_drawn_reset(board: &mut MiniBoard)
    requires
        old(board).wf(),
    ensures
        final(board).wf(),
        final(board)@ == empty_board_view(),
{
    let mut i: usize = 0;
    while i < 9
        invariant
            i <= 9,
            board.wf(),
            forall|j: int| 0 <= j < i ==> (#[trigger] board@.cells[j]) is None,
            board@.status == old(board)@.status,
        decreases 9 - i,
    {
        board.set_cell(i, None);
        i = i + 1;
    }
    board.set_status(MiniBoardStatus::Unclaimed);
    proof {
        assert(board@.cells =~= empty_board_view().cells);
    }
}

/// Validates and applies one move. On success the current player's mark is
/// written into the cell, the turn passes to the other player, and the
/// targeted mini-board's status is recomputed (with a draw reset applied in
/// the same step); on any rejection the game is left completely unchanged and
/// the turn does not advance.
pub fn apply_move(state: &mut GameState, board_index: usize, cell_index: usize) -> (r: MoveResult)
    requires
        old(state).wf(),
    ensures
        final(state).wf(),
        final(state)@ == game_step(old(state)@, board_index as int, cell_index as int),
        r == step_result(old(state)@, board_index as int, cell_index as int),
{
    if board_index >= 9 || cell_index >= 9 {
        return MoveResult::Rejected(MoveError::IndexOutOfRange);
    }
    let playable = match state.mini_board_status(board_index) {
        Ok(MiniBoardStatus::Unclaimed) => true,
        _ => false,
    };
    if !playable {
        return MoveResult::Rejected(MoveError::MiniBoardNotPlayable);
    }
    let occupied = match state.occupant_at(board_index, cell_index) {
        Ok(Some(_)) => true,
        _ => false,
    };
    if occupied {
        return MoveResult::Rejected(MoveError::CellOccupied);
    }
    let mover = state.current_player();
    state.board_mut(board_index).set_cell(cell_index, Some(mover));
    state.advance_turn();
    let status = post_move_transition(state.board_mut(board_index));
    match status {
        MiniBoardStatus::Drawn => apply_drawn_reset(state.board_mut(board_index)),
        _ => (),
    }
    proof {
        assert(state@ =~~= game_step(old(state)@, board_index as int, cell_index as int));
    }
    MoveResult::Accepted
}

} // verus!
