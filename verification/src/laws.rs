//! Game-wide laws of the rule engine, stated over the functional model
//! (`game_step`, `step_result`, `winner_of`, `settled_board`) and proved once
//! and for all: turn alternation, the harmlessness of rejected moves, the
//! correctness of line detection, the draw reset, and the permanence of a
//! claimed mini-board.

use vstd::prelude::*;

use crate::game::GameView;
use crate::game::MiniBoardStatus;
use crate::game::MoveError;
use crate::game::MoveResult;
use crate::game::Player;
use crate::game::empty_board_view;
use crate::game::game_wf;
use crate::game::init_view;
use crate::engine::game_step;
use crate::engine::in_range;
use crate::engine::is_winning_line;
use crate::engine::move_allowed;
use crate::engine::settled_board;
use crate::engine::step_result;
use crate::engine::transition_status;
use crate::engine::winner_of;

verus! {

/// The game after a whole sequence of attempted moves, applied in order;
/// rejected moves leave the game as it was.
pub open spec fn run_moves(g: GameView, moves: Seq<(int, int)>) -> GameView
    decreases moves.len(),
{
    if moves.len() == 0 {
        g
    } else {
        run_moves(game_step(g, moves[0].0, moves[0].1), moves.drop_first())
    }
}

/// How many of the attempted moves are accepted, in order.
pub open spec fn accepted_count(g: GameView, moves: Seq<(int, int)>) -> nat
    decreases moves.len(),
{
    if moves.len() == 0 {
        0
    } else {
        (if move_allowed(g, moves[0].0, moves[0].1) {
            1nat
        } else {
            0nat
        }) + accepted_count(game_step(g, moves[0].0, moves[0].1), moves.drop_first())
    }
}

/// A move is reported `Accepted` exactly when it is allowed: the notion
/// `accepted_count` counts is the one `apply_move` reports.
pub proof fn lemma_accepted_iff_allowed(g: GameView, board_index: int, cell_index: int)
    ensures
        step_result(g, board_index, cell_index) is Accepted <==> move_allowed(
            g,
            board_index,
            cell_index,
        ),
{
}

/// One step of the engine keeps the game well formed.
pub proof fn lemma_step_preserves_wf(g: GameView, board_index: int, cell_index: int)
    requires
        game_wf(g),
    ensures
        game_wf(game_step(g, board_index, cell_index)),
{
}

/// A whole sequence of attempted moves keeps the game well formed.
pub proof fn lemma_run_preserves_wf(g: GameView, moves: Seq<(int, int)>)
    requires
        game_wf(g),
    ensures
        game_wf(run_moves(g, moves)),
    decreases moves.len(),
{
    if moves.len() > 0 {
        lemma_step_preserves_wf(g, moves[0].0, moves[0].1);
        lemma_run_preserves_wf(game_step(g, moves[0].0, moves[0].1), moves.drop_first());
    }
}

/// Turn alternation: the turn changes exactly once per accepted move, so after
/// any sequence of attempted moves it is the starting player's turn again if
/// and only if an even number of them was accepted.
pub proof fn lemma_turn_alternation(g: GameView, moves: Seq<(int, int)>)
    ensures
        run_moves(g, moves).turn == (if accepted_count(g, moves) % 2 == 0 {
            g.turn
        } else {
            g.turn.opponent()
        }),
    decreases moves.len(),
{
    if moves.len() > 0 {
        let g1 = game_step(g, moves[0].0, moves[0].1);
        lemma_turn_alternation(g1, moves.drop_first());
    }
}

/// Turn alternation from the start of the game: after a sequence of attempted
/// moves of which N were accepted, it is X's turn if N is even and O's turn if
/// N is odd (with N = 0, X moves first).
pub proof fn lemma_turn_alternation_from_start(moves: Seq<(int, int)>)
    ensures
        run_moves(init_view(), moves).turn == (if accepted_count(init_view(), moves) % 2 == 0 {
            Player::X
        } else {
            Player::O
        }),
{
    lemma_turn_alternation(init_view(), moves);
}

/// A rejected move performs no mutation at all.
pub proof fn lemma_rejected_move_changes_nothing(g: GameView, board_index: int, cell_index: int)
    requires
        step_result(g, board_index, cell_index) is Rejected,
    ensures
        game_step(g, board_index, cell_index) == g,
{
}

/// A move into an already-occupied cell is always rejected, and leaves every
/// cell and the turn unchanged — however often it is retried.
pub proof fn lemma_occupied_cell_rejected(g: GameView, board_index: int, cell_index: int)
    requires
        game_wf(g),
        in_range(board_index, cell_index),
        g.boards[board_index].cells[cell_index] is Some,
    ensures
        step_result(g, board_index, cell_index) is Rejected,
        game_step(g, board_index, cell_index) == g,
{
}

/// Line detection is sound and first-line-deciding: on a position whose only
/// occupied cells are the three of one winning line, all held by player `p`,
/// the scan reports `p` as the winner.
pub proof fn lemma_isolated_line_wins(
    cells: Seq<Option<Player>>,
    a: int,
    b: int,
    c: int,
    p: Player,
)
    requires
        cells.len() == 9,
        is_winning_line(a, b, c),
        cells[a] == Some(p),
        cells[b] == Some(p),
        cells[c] == Some(p),
        forall|i: int| 0 <= i < 9 && i != a && i != b && i != c ==> (#[trigger] cells[i]) is None,
    ensures
        winner_of(cells) == Some(p),
{
}

/// Draws never persist: a mini-board whose cells classify to `Drawn` settles,
/// in the same logical step, to all cells empty and status `Unclaimed`.
pub proof fn lemma_draw_resets(cells: Seq<Option<Player>>)
    requires
        cells.len() == 9,
        transition_status(cells) is Drawn,
    ensures
        settled_board(cells) == empty_board_view(),
{
}

/// A claimed mini-board rejects every further move targeting its cells,
/// regardless of cell emptiness, and the rejection changes nothing.
pub proof fn lemma_claimed_board_rejects(g: GameView, board_index: int, cell_index: int)
    requires
        game_wf(g),
        in_range(board_index, cell_index),
        g.boards[board_index].status is Claimed,
    ensures
        step_result(g, board_index, cell_index) == MoveResult::Rejected(
            MoveError::MiniBoardNotPlayable,
        ),
        game_step(g, board_index, cell_index) == g,
{
}

/// A claim is terminal: once a mini-board is `Claimed(p)`, it is still
/// `Claimed(p)` after any further sequence of attempted moves.
pub proof fn lemma_claimed_is_permanent(
    g: GameView,
    moves: Seq<(int, int)>,
    board_index: int,
    p: Player,
)
    requires
        game_wf(g),
        0 <= board_index < 9,
        g.boards[board_index].status == MiniBoardStatus::Claimed(p),
    ensures
        run_moves(g, moves).boards[board_index].status == MiniBoardStatus::Claimed(p),
    decreases moves.len(),
{
    if moves.len() > 0 {
        let g1 = game_step(g, moves[0].0, moves[0].1);
        lemma_step_preserves_wf(g, moves[0].0, moves[0].1);
        lemma_claimed_is_permanent(g1, moves.drop_first(), board_index, p);
    }
}

} // verus!
